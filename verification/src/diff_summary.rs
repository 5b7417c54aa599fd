//! The per-file diff summary: classification of every difference record,
//! substring-based exclusion, and truncation to a caller-chosen maximum.

use vstd::prelude::*;
use vstd::string::*;

use crate::errors::GitError;
use crate::gitio;
use crate::lines::sat32;
use crate::records::{classify, classify_spec, label_spec, rec_path, status_label, StatusRecord};
use crate::text::seq_contains;

verus! {

/// One file of the diff summary: its path, its status label, and whether the
/// change is staged (never set by this aggregation).
#[derive(Clone, Debug)]
pub struct FileDiffSummaryItem {
    pub path: String,
    pub status: String,
    pub staged: bool,
}

/// The diff summary: the listed files, the total count before truncation,
/// and whether truncation happened.
#[derive(Clone, Debug)]
pub struct DiffSummaryResult {
    pub files: Vec<FileDiffSummaryItem>,
    pub total: u32,
    pub truncated: bool,
}

/// The path contains at least one of the exclude patterns as a substring.
pub open spec fn matches_any_spec(path: Seq<char>, patterns: Seq<String>) -> bool {
    exists|i: int| 0 <= i < patterns.len() && seq_contains(path, patterns[i]@)
}

/// Substring test of a path against every exclude pattern.
pub fn matches_any_pattern(path: &str, patterns: &[String]) -> (r: bool)
    ensures
        r == matches_any_spec(path@, patterns@),
{
    let mut i: usize = 0;
    while i < patterns.len()
        invariant
            0 <= i <= patterns@.len(),
            forall|k: int| 0 <= k < i ==> !seq_contains(path@, patterns@[k]@),
        decreases patterns@.len() - i,
    {
        if crate::text::str_contains_str(path, patterns[i].as_str()) {
            return true;
        }
        i += 1;
    }
    false
}

/// The records that survive exclusion, in order.
pub open spec fn filtered_records(records: Seq<StatusRecord>, patterns: Seq<String>) -> Seq<
    StatusRecord,
>
    decreases records.len(),
{
    if records.len() == 0 {
        Seq::empty()
    } else {
        let prev = filtered_records(records.drop_last(), patterns);
        if matches_any_spec(rec_path(records.last()), patterns) {
            prev
        } else {
            prev.push(records.last())
        }
    }
}

/// No record whose path contains an exclude pattern survives filtering.
pub proof fn lemma_excluded_never_appear(records: Seq<StatusRecord>, patterns: Seq<String>)
    ensures
        forall|j: int|
            0 <= j < filtered_records(records, patterns).len() ==> !matches_any_spec(
                rec_path(#[trigger] filtered_records(records, patterns)[j]),
                patterns,
            ),
    decreases records.len(),
{
    if records.len() > 0 {
        lemma_excluded_never_appear(records.drop_last(), patterns);
        let prev = filtered_records(records.drop_last(), patterns);
        let f = filtered_records(records, patterns);
        if !matches_any_spec(rec_path(records.last()), patterns) {
            assert(f == prev.push(records.last()));
            assert forall|j: int| 0 <= j < f.len() implies !matches_any_spec(
                rec_path(f[j]),
                patterns,
            ) by {
                if j < prev.len() {
                    assert(f[j] == prev[j]);
                } else {
                    assert(f[j] == records.last());
                }
            }
        }
    }
}

/// Whether a summary over `kept` surviving records is truncated at `max`.
pub open spec fn truncated_spec(kept: nat, max: u32) -> bool {
    max > 0 && kept > max
}

/// How many records a summary shows: all surviving ones, or the first `max`
/// when truncated.
pub open spec fn shown_len_spec(kept: nat, max: u32) -> nat {
    if truncated_spec(kept, max) {
        max as nat
    } else {
        kept
    }
}

/// With no maximum a summary is never truncated; with a positive maximum
/// below the surviving count it shows exactly that many entries and reports
/// truncation.
pub proof fn lemma_truncation(kept: nat, max: u32)
    ensures
        max == 0 ==> !truncated_spec(kept, max) && shown_len_spec(kept, max) == kept,
        0 < (max as nat) < kept ==> truncated_spec(kept, max) && shown_len_spec(kept, max)
            == max as nat,
{
}

/// Builds the diff summary from the difference records: classifies each
/// record, drops those whose path contains an exclude pattern, counts the
/// survivors, and truncates to the first `max_files` when that maximum is
/// positive and exceeded.
pub fn build_diff_summary(
    records: &Vec<StatusRecord>,
    exclude: &Vec<String>,
    max_files: u32,
) -> (r: DiffSummaryResult)
    ensures
        r.total as nat == sat32(filtered_records(records@, exclude@).len()),
        r.truncated == truncated_spec(filtered_records(records@, exclude@).len(), max_files),
        r.files@.len() == shown_len_spec(filtered_records(records@, exclude@).len(), max_files),
        forall|i: int|
            0 <= i < r.files@.len() ==> {
                let f = filtered_records(records@, exclude@);
                (#[trigger] r.files@[i]).path@ == rec_path(f[i]) && r.files@[i].status@
                    == label_spec(classify_spec(f[i])) && r.files@[i].staged == false
            },
{
    let mut files: Vec<FileDiffSummaryItem> = Vec::new();
    let mut i: usize = 0;
    while i < records.len()
        invariant
            0 <= i <= records@.len(),
            files@.len() == filtered_records(records@.take(i as int), exclude@).len(),
            forall|k: int|
                0 <= k < files@.len() ==> {
                    let f = filtered_records(records@.take(i as int), exclude@);
                    (#[trigger] files@[k]).path@ == rec_path(f[k]) && files@[k].status@
                        == label_spec(classify_spec(f[k])) && files@[k].staged == false
                },
        decreases records@.len() - i,
    {
        proof {
            assert(records@.take(i + 1).drop_last() =~= records@.take(i as int));
            assert(records@.take(i + 1).last() == records@[i as int]);
        }
        let rec = &records[i];
        let path: &String = match rec {
            StatusRecord::Modification { rela_path, .. } => rela_path,
            StatusRecord::DirectoryContents { rela_path } => rela_path,
            StatusRecord::Rewrite { rela_path } => rela_path,
        };
        if !matches_any_pattern(path.as_str(), exclude.as_slice()) {
            let kind = classify(rec);
            files.push(
                FileDiffSummaryItem {
                    path: path.clone(),
                    status: status_label(kind),
                    staged: false,
                },
            );
        }
        i += 1;
    }
    proof {
        assert(records@.take(records@.len() as int) =~= records@);
    }
    let kept = files.len();
    let total: u32 = if kept > 0xffff_ffff_usize {
        0xffff_ffffu32
    } else {
        kept as u32
    };
    let truncated: bool = max_files > 0 && kept > max_files as usize;
    if truncated {
        files.truncate(max_files as usize);
    }
    DiffSummaryResult { files, total, truncated }
}

/// The diff summary of a working tree: every index-vs-worktree difference,
/// classified, exclusion-filtered and truncated. A missing exclude list
/// excludes nothing; a missing or zero maximum never truncates. Failures to
/// open the repository or enumerate differences are fatal, and nothing else
/// can fail.
pub fn get_diff_summary(
    cwd: &str,
    exclude_patterns: Option<Vec<String>>,
    max_files: Option<u32>,
) -> (r: Result<DiffSummaryResult, GitError>)
    ensures
        r matches Ok(s) ==> (s.truncated ==> s.files@.len() == match max_files {
            Some(m) => m as nat,
            None => 0nat,
        }),
        r matches Err(e) ==> e == GitError::RepositoryOpen || e == GitError::StatusEnumeration,
{
    let repo = match gitio::open_repo(cwd) {
        Ok(repo) => repo,
        Err(e) => return Err(e),
    };
    let exclude: Vec<String> = match exclude_patterns {
        Some(v) => v,
        None => Vec::new(),
    };
    let max: u32 = match max_files {
        Some(m) => m,
        None => 0,
    };
    let records = match gitio::status_records(&repo) {
        Ok(r) => r,
        Err(e) => return Err(e),
    };
    Ok(build_diff_summary(&records, &exclude, max))
}

} // verus!
