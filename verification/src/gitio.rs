//! The repository access layer: every call into the gix crate (and the one
//! clock read) stands here behind a trusted item. Each wrapper converts the
//! outside values to plain ones; the logic that consumes them is verified
//! elsewhere in this crate.

use vstd::prelude::*;

use crate::errors::GitError;
use crate::records::{ModKind, StatusRecord};
use gix_status::index_as_worktree::{Change, EntryStatus};

verus! {

#[verifier::external_type_specification]
#[verifier::external_body]
pub struct ExRepository(gix::Repository);

#[verifier::external_type_specification]
#[verifier::external_body]
pub struct ExStatusItem(gix::status::index_worktree::Item);

#[verifier::external_type_specification]
#[verifier::external_body]
#[verifier::reject_recursive_types(T)]
#[verifier::reject_recursive_types(U)]
pub struct ExEntryStatus<T, U>(EntryStatus<T, U>);

#[verifier::external_type_specification]
#[verifier::external_body]
pub struct ExCommit<'repo>(gix::Commit<'repo>);

/// One commit of the log walk, projected to plain values: full hex hash,
/// author display name (empty if unavailable), author timestamp in seconds
/// since the epoch (zero if unavailable), and the first message line.
pub struct CommitRaw {
    pub hash: String,
    pub author: String,
    pub seconds: i64,
    pub summary: String,
}

/// Relies on gix::open: opens the repository that contains the given
/// working-tree path.
#[verifier::external_body]
pub(crate) fn open_repo(path: &str) -> (r: Result<gix::Repository, GitError>)
    ensures
        r matches Err(e) ==> e == GitError::RepositoryOpen,
{
    match gix::open(path) {
        Ok(repo) => Ok(repo),
        Err(_) => Err(GitError::RepositoryOpen),
    }
}

/// Relies on gix::Repository::head_ref and gix_ref::FullNameRef::shorten:
/// the shortened name of the symbolic HEAD reference, or None when HEAD is
/// detached or unborn in a way that yields no reference.
#[verifier::external_body]
pub(crate) fn head_branch_short_name(repo: &gix::Repository) -> (r: Result<
    Option<String>,
    GitError,
>)
    ensures
        r matches Err(e) ==> e == GitError::ReferenceResolution,
{
    match repo.head_ref() {
        Ok(head) => Ok(head.map(|r| r.name().shorten().to_string())),
        Err(_) => Err(GitError::ReferenceResolution),
    }
}

/// Relies on gix::Repository::head_commit: the id bytes of the commit HEAD
/// points at.
#[verifier::external_body]
pub(crate) fn head_commit_id(repo: &gix::Repository) -> (r: Result<Vec<u8>, GitError>)
    ensures
        r matches Err(e) ==> e == GitError::ReferenceResolution,
{
    match repo.head_commit() {
        Ok(commit) => Ok(commit.id().as_bytes().to_vec()),
        Err(_) => Err(GitError::ReferenceResolution),
    }
}

/// Relies on gix::Repository::head_commit and gix::Commit::tree: checks that
/// the tree of the commit HEAD points at can be read.
#[verifier::external_body]
pub(crate) fn head_tree_check(repo: &gix::Repository) -> (r: Result<(), GitError>)
    ensures
        r matches Err(e) ==> e == GitError::ReferenceResolution || e == GitError::ObjectRead,
{
    match repo.head_commit() {
        Ok(commit) => match commit.tree() {
            Ok(_) => Ok(()),
            Err(_) => Err(GitError::ObjectRead),
        },
        Err(_) => Err(GitError::ReferenceResolution),
    }
}

/// Relies on gix_status::index_as_worktree::EntryStatus and Change: maps each
/// tag of a tracked-entry status to this crate's sub-kind, one arm each.
#[verifier::external_body]
fn mod_kind_of<T, U>(status: &EntryStatus<T, U>) -> (r: ModKind) {
    match status {
        EntryStatus::Conflict { .. } => ModKind::Conflict,
        EntryStatus::Change(Change::Removed) => ModKind::Removed,
        EntryStatus::Change(Change::Type { .. }) => ModKind::TypeChange,
        EntryStatus::Change(Change::Modification { .. }) => ModKind::ContentModification,
        EntryStatus::Change(Change::SubmoduleModification(_)) => ModKind::SubmoduleModification,
        EntryStatus::NeedsUpdate(_) => ModKind::NeedsUpdate,
        EntryStatus::IntentToAdd => ModKind::IntentToAdd,
    }
}

/// Relies on gix::status::index_worktree::Item: maps each variant of the
/// difference record to this crate's record type, one arm each, carrying the
/// repository-relative path over.
#[verifier::external_body]
fn record_of_item(item: gix::status::index_worktree::Item) -> (r: StatusRecord) {
    match item {
        gix::status::index_worktree::Item::Modification { rela_path, status, .. } => {
            StatusRecord::Modification { rela_path: rela_path.to_string(), kind: mod_kind_of(&status) }
        },
        gix::status::index_worktree::Item::DirectoryContents { entry, .. } => {
            StatusRecord::DirectoryContents { rela_path: entry.rela_path.to_string() }
        },
        gix::status::index_worktree::Item::Rewrite { dirwalk_entry, .. } => {
            StatusRecord::Rewrite { rela_path: dirwalk_entry.rela_path.to_string() }
        },
    }
}

/// Relies on gix::Repository::status and
/// gix::status::Platform::into_index_worktree_iter: enumerates every
/// index-vs-worktree difference record. Any stream-level failure is fatal.
#[verifier::external_body]
pub(crate) fn status_records(repo: &gix::Repository) -> (r: Result<Vec<StatusRecord>, GitError>)
    ensures
        r matches Err(e) ==> e == GitError::StatusEnumeration,
{
    let platform = repo.status(gix::progress::Discard).map_err(|_| GitError::StatusEnumeration)?;
    let iter = platform.into_index_worktree_iter(Vec::<gix::bstr::BString>::new()).map_err(
        |_| GitError::StatusEnumeration,
    )?;
    let mut out: Vec<StatusRecord> = Vec::new();
    for item in iter {
        match item {
            Ok(i) => out.push(record_of_item(i)),
            Err(_) => return Err(GitError::StatusEnumeration),
        }
    }
    Ok(out)
}

/// Relies on the same status iteration as status_records, with
/// gix::status::UntrackedFiles::Files so that untracked files are emitted
/// one record per file.
#[verifier::external_body]
pub(crate) fn status_records_with_untracked_files(repo: &gix::Repository) -> (r: Result<
    Vec<StatusRecord>,
    GitError,
>)
    ensures
        r matches Err(e) ==> e == GitError::StatusEnumeration,
{
    let platform = repo.status(gix::progress::Discard).map_err(|_| GitError::StatusEnumeration)?
        .untracked_files(gix::status::UntrackedFiles::Files);
    let iter = platform.into_index_worktree_iter(Vec::<gix::bstr::BString>::new()).map_err(
        |_| GitError::StatusEnumeration,
    )?;
    let mut out: Vec<StatusRecord> = Vec::new();
    for item in iter {
        match item {
            Ok(i) => out.push(record_of_item(i)),
            Err(_) => return Err(GitError::StatusEnumeration),
        }
    }
    Ok(out)
}

/// Relies on gix::Repository::head_commit, gix::Commit::tree,
/// gix::Tree::lookup_entry_by_path and gix::Object data: the bytes of the
/// blob at the given repository-relative path in HEAD's tree, or None when
/// any step of that lookup fails (tolerated, never fatal).
#[verifier::external_body]
pub(crate) fn blob_bytes_at_head(repo: &gix::Repository, rela_path: &str) -> (r: Option<Vec<u8>>) {
    let tree = repo.head_commit().ok()?.tree().ok()?;
    let entry = tree.lookup_entry_by_path(rela_path).ok()??;
    let object = entry.object().ok()?;
    Some(object.detach().data)
}

/// Relies on gix::Repository::find_reference: whether a reference of the
/// given full name exists.
#[verifier::external_body]
pub(crate) fn ref_exists(repo: &gix::Repository, name: &str) -> (r: bool) {
    repo.find_reference(name).is_ok()
}

/// Relies on gix::Repository::find_reference and
/// gix::Reference::into_fully_peeled_id: the id bytes the reference peels
/// to, or None when lookup or peeling fails (tolerated).
#[verifier::external_body]
pub(crate) fn peeled_ref_id(repo: &gix::Repository, name: &str) -> (r: Option<Vec<u8>>) {
    let reference = repo.find_reference(name).ok()?;
    let id = reference.into_fully_peeled_id().ok()?;
    Some(id.as_bytes().to_vec())
}

/// Relies on gix::Repository::find_reference and
/// gix_ref::FullNameRef::shorten: the shortened name of the reference, or
/// None when it cannot be found (tolerated).
#[verifier::external_body]
pub(crate) fn reference_short_name(repo: &gix::Repository, name: &str) -> (r: Option<String>) {
    let reference = repo.find_reference(name).ok()?;
    Some(reference.name().shorten().to_string())
}

/// Relies on gix::Repository::references and the local_branches iterator:
/// the shortened names of all local branch references, in enumeration order;
/// single references that fail to resolve are skipped.
#[verifier::external_body]
pub(crate) fn local_branch_names(repo: &gix::Repository) -> (r: Result<Vec<String>, GitError>)
    ensures
        r matches Err(e) ==> e == GitError::ReferenceResolution,
{
    let platform = match repo.references() {
        Ok(p) => p,
        Err(_) => return Err(GitError::ReferenceResolution),
    };
    let iter = match platform.local_branches() {
        Ok(i) => i,
        Err(_) => return Err(GitError::ReferenceResolution),
    };
    Ok(iter.filter_map(|r| r.ok().map(|b| b.name().shorten().to_string())).collect())
}

/// Relies on gix::Repository::references and the remote_branches iterator:
/// the shortened names of all remote-tracking references, in enumeration
/// order; single references that fail to resolve are skipped.
#[verifier::external_body]
pub(crate) fn remote_branch_names(repo: &gix::Repository) -> (r: Result<Vec<String>, GitError>)
    ensures
        r matches Err(e) ==> e == GitError::ReferenceResolution,
{
    let platform = match repo.references() {
        Ok(p) => p,
        Err(_) => return Err(GitError::ReferenceResolution),
    };
    let iter = match platform.remote_branches() {
        Ok(i) => i,
        Err(_) => return Err(GitError::ReferenceResolution),
    };
    Ok(iter.filter_map(|r| r.ok().map(|b| b.name().shorten().to_string())).collect())
}

/// Relies on gix::Repository::merge_base: the id bytes of the lowest common
/// ancestor of the two commits, or None when the ids do not parse or no
/// merge-base exists (tolerated).
#[verifier::external_body]
pub(crate) fn merge_base_id(repo: &gix::Repository, one: &Vec<u8>, two: &Vec<u8>) -> (r: Option<
    Vec<u8>,
>) {
    let one = gix::ObjectId::try_from(one.as_slice()).ok()?;
    let two = gix::ObjectId::try_from(two.as_slice()).ok()?;
    let base = repo.merge_base(one, two).ok()?;
    Some(base.as_bytes().to_vec())
}

/// Relies on gix::Repository::rev_walk: the id bytes of every commit
/// reachable from the given start, in traversal order; None when the walk
/// cannot start (tolerated), single failing items are skipped.
#[verifier::external_body]
pub(crate) fn ancestry_ids(repo: &gix::Repository, start: &Vec<u8>) -> (r: Option<Vec<Vec<u8>>>) {
    let start = gix::ObjectId::try_from(start.as_slice()).ok()?;
    let iter = repo.rev_walk([start]).all().ok()?;
    Some(iter.filter_map(|info| info.ok().map(|i| i.id.as_bytes().to_vec())).collect())
}

/// Relies on gix::Repository::rev_walk, gix::Commit::author, time and
/// message_raw_sloppy: walks ancestry from the given start and projects at
/// most `max` commits to plain values; a failing walk item or unreadable
/// commit is fatal, while a missing author or time degrades to an empty
/// name or a zero timestamp.
#[verifier::external_body]
pub(crate) fn log_entries(repo: &gix::Repository, start: &Vec<u8>, max: usize) -> (r: Result<
    Vec<CommitRaw>,
    GitError,
>)
    ensures
        r is Ok ==> r.unwrap()@.len() <= max,
        r matches Err(e) ==> e == GitError::AncestryWalk || e == GitError::ObjectRead,
{
    let start = match gix::ObjectId::try_from(start.as_slice()) {
        Ok(id) => id,
        Err(_) => return Err(GitError::AncestryWalk),
    };
    let iter = repo.rev_walk([start]).all().map_err(|_| GitError::AncestryWalk)?;
    let mut out: Vec<CommitRaw> = Vec::new();
    for info in iter {
        if out.len() >= max {
            break;
        }
        let info = info.map_err(|_| GitError::AncestryWalk)?;
        let commit = info.object().map_err(|_| GitError::ObjectRead)?;
        out.push(commit_raw(&commit));
    }
    Ok(out)
}

/// Relies on gix::Commit::id, author, gix_actor::SignatureRef::time and
/// gix::Commit::message_raw_sloppy with bstr line splitting: projects one
/// commit to plain values; a missing author or unparsable time degrades to
/// an empty name or a zero timestamp, an empty message to an empty line.
#[verifier::external_body]
fn commit_raw<'a>(commit: &gix::Commit<'a>) -> (r: CommitRaw) {
    let author = commit.author().ok();
    CommitRaw {
        hash: commit.id().to_string(),
        author: author.as_ref().map(|a| a.name.to_string()).unwrap_or_default(),
        seconds: author.as_ref().and_then(|a| a.time().ok()).map(|t| t.seconds).unwrap_or(0),
        summary: gix::bstr::ByteSlice::lines(AsRef::<[u8]>::as_ref(commit.message_raw_sloppy()))
            .next().map(|l| gix::bstr::ByteSlice::to_str_lossy(l).to_string()).unwrap_or_default(),
    }
}

/// Relies on std::time::SystemTime::now: seconds since the Unix epoch, or
/// zero when the clock reads before the epoch. Nothing is promised of the
/// value.
#[verifier::external_body]
pub(crate) fn now_unix_seconds() -> (r: i64) {
    std::time::SystemTime::now()
        .duration_since(std::time::SystemTime::UNIX_EPOCH)
        .map(|d| d.as_secs() as i64)
        .unwrap_or(0)
}

} // verus!
