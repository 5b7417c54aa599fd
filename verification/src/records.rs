//! The status taxonomy: raw index/worktree difference records and their
//! classification into a per-file status kind.

use vstd::prelude::*;

verus! {

/// The sub-kind of a tracked-entry modification record, as the repository
/// access layer tags it. The variants are mutually exclusive.
#[derive(Clone, Copy, Debug, PartialEq, Eq, Structural)]
pub enum ModKind {
    Conflict,
    Removed,
    TypeChange,
    ContentModification,
    SubmoduleModification,
    NeedsUpdate,
    IntentToAdd,
}

/// One index-vs-worktree difference record: a tracked modification, an
/// on-disk-only (untracked) entry, or a detected rewrite/rename.
#[derive(Clone, Debug)]
pub enum StatusRecord {
    Modification { rela_path: String, kind: ModKind },
    DirectoryContents { rela_path: String },
    Rewrite { rela_path: String },
}

/// The status taxonomy a record is classified into.
#[derive(Clone, Copy, Debug, PartialEq, Eq, Structural)]
pub enum StatusKind {
    Added,
    Modified,
    Deleted,
    Renamed,
}

/// The repository-relative path a record carries.
pub open spec fn rec_path(r: StatusRecord) -> Seq<char> {
    match r {
        StatusRecord::Modification { rela_path, .. } => rela_path@,
        StatusRecord::DirectoryContents { rela_path } => rela_path@,
        StatusRecord::Rewrite { rela_path } => rela_path@,
    }
}

/// The classification precedence table: conflicts, type changes, content and
/// submodule changes and stale index entries are modifications; removals are
/// deletions; intent-to-add and untracked entries are additions; rewrites are
/// renames.
pub open spec fn classify_spec(r: StatusRecord) -> StatusKind {
    match r {
        StatusRecord::Modification { kind, .. } => match kind {
            ModKind::Conflict => StatusKind::Modified,
            ModKind::Removed => StatusKind::Deleted,
            ModKind::TypeChange => StatusKind::Modified,
            ModKind::ContentModification => StatusKind::Modified,
            ModKind::SubmoduleModification => StatusKind::Modified,
            ModKind::NeedsUpdate => StatusKind::Modified,
            ModKind::IntentToAdd => StatusKind::Added,
        },
        StatusRecord::DirectoryContents { .. } => StatusKind::Added,
        StatusRecord::Rewrite { .. } => StatusKind::Renamed,
    }
}

/// Maps one difference record to its status kind.
pub fn classify(r: &StatusRecord) -> (k: StatusKind)
    ensures
        k == classify_spec(*r),
{
    match r {
        StatusRecord::Modification { kind, .. } => match kind {
            ModKind::Conflict => StatusKind::Modified,
            ModKind::Removed => StatusKind::Deleted,
            ModKind::TypeChange => StatusKind::Modified,
            ModKind::ContentModification => StatusKind::Modified,
            ModKind::SubmoduleModification => StatusKind::Modified,
            ModKind::NeedsUpdate => StatusKind::Modified,
            ModKind::IntentToAdd => StatusKind::Added,
        },
        StatusRecord::DirectoryContents { .. } => StatusKind::Added,
        StatusRecord::Rewrite { .. } => StatusKind::Renamed,
    }
}

/// The display label of a status kind.
pub open spec fn label_spec(k: StatusKind) -> Seq<char> {
    match k {
        StatusKind::Added => "added"@,
        StatusKind::Modified => "modified"@,
        StatusKind::Deleted => "deleted"@,
        StatusKind::Renamed => "renamed"@,
    }
}

/// Renders a status kind as its display label.
pub fn status_label(k: StatusKind) -> (r: String)
    ensures
        r@ == label_spec(k),
{
    match k {
        StatusKind::Added => String::from_str("added"),
        StatusKind::Modified => String::from_str("modified"),
        StatusKind::Deleted => String::from_str("deleted"),
        StatusKind::Renamed => String::from_str("renamed"),
    }
}

} // verus!
