//! The status-and-divergence digest: dirty-file counting, line tallies over
//! tracked modifications and untracked files, ahead-count via ancestry walk
//! and merge-base, and the merge-containment check.

use vstd::prelude::*;
use vstd::string::*;

use crate::errors::GitError;
use crate::gitio;
use crate::lines::{count_file_lines, diff_counts_spec, diff_line_counts, line_count_spec, sat32, sat_add_u32};
use crate::records::StatusRecord;
use crate::text::bytes_eq;

verus! {

/// The most untracked files a single summary examines for line counting.
pub const MAX_UNTRACKED_TO_COUNT: usize = 200;

/// The largest untracked file, in bytes, examined for line counting.
pub const MAX_UNTRACKED_FILE_SIZE: u64 = 524288;

/// The full digest of one status query.
#[derive(Clone, Copy, Debug, PartialEq, Eq, Structural)]
pub struct GitStatusSummary {
    pub dirty_file_count: u32,
    pub unpushed_commit_count: u32,
    pub has_remote_branch: bool,
    pub is_merged_into_base: bool,
    pub lines_added: u32,
    pub lines_deleted: u32,
}

/// One tracked modification awaiting line counting: its repository-relative
/// path and the old blob bytes from HEAD's tree. A failed lookup is
/// tolerated, recorded as None, and contributes an empty old side.
#[derive(Clone, Debug)]
pub struct ModifiedOld {
    pub rela_path: String,
    pub old_bytes: Option<Vec<u8>>,
}

/// Everything a status scan establishes before the worktree files are read:
/// the branch state and divergence, the dirty-file count, the tracked
/// modifications with their old blob sides, and the untracked paths (the
/// first MAX_UNTRACKED_TO_COUNT of them) still to be counted.
pub struct StatusScan {
    pub branch_name: Option<String>,
    pub dirty_file_count: u32,
    pub modified: Vec<ModifiedOld>,
    pub untracked: Vec<String>,
    pub unpushed_commit_count: u32,
    pub has_remote_branch: bool,
    pub is_merged_into_base: bool,
}

/// One untracked file as read from disk: its metadata size and its bytes.
pub struct DiskFile {
    pub size: u64,
    pub bytes: Vec<u8>,
}

/// The character sequences a sequence of strings reads as.
pub open spec fn path_views(v: Seq<String>) -> Seq<Seq<char>> {
    v.map_values(|s: String| s@)
}

/// The paths of the tracked-modification records, in order.
pub open spec fn modified_paths(records: Seq<StatusRecord>) -> Seq<Seq<char>>
    decreases records.len(),
{
    if records.len() == 0 {
        Seq::empty()
    } else {
        let prev = modified_paths(records.drop_last());
        match records.last() {
            StatusRecord::Modification { rela_path, .. } => prev.push(rela_path@),
            _ => prev,
        }
    }
}

/// The paths of the untracked (on-disk-only) records, in order.
pub open spec fn untracked_paths(records: Seq<StatusRecord>) -> Seq<Seq<char>>
    decreases records.len(),
{
    if records.len() == 0 {
        Seq::empty()
    } else {
        let prev = untracked_paths(records.drop_last());
        match records.last() {
            StatusRecord::DirectoryContents { rela_path } => prev.push(rela_path@),
            _ => prev,
        }
    }
}

/// The untracked paths a summary examines: the first MAX_UNTRACKED_TO_COUNT.
pub open spec fn untracked_capped(records: Seq<StatusRecord>) -> Seq<Seq<char>> {
    let u = untracked_paths(records);
    if u.len() > 200 {
        u.take(200)
    } else {
        u
    }
}

/// What one record partition yields.
pub struct StatusPartition {
    pub dirty_file_count: u32,
    pub modified_rel_paths: Vec<String>,
    pub untracked_rel_paths: Vec<String>,
}

/// Splits the difference records: every record counts as dirty (saturating);
/// tracked modifications and the first MAX_UNTRACKED_TO_COUNT untracked
/// entries are kept, by path and in order, for line counting; rewrites count
/// as dirty only.
pub fn partition_records(records: &Vec<StatusRecord>) -> (r: StatusPartition)
    ensures
        r.dirty_file_count as nat == sat32(records@.len()),
        path_views(r.modified_rel_paths@) == modified_paths(records@),
        path_views(r.untracked_rel_paths@) == untracked_capped(records@),
{
    let mut dirty: u32 = 0;
    let mut modified: Vec<String> = Vec::new();
    let mut untracked: Vec<String> = Vec::new();
    let mut i: usize = 0;
    while i < records.len()
        invariant
            0 <= i <= records@.len(),
            dirty as nat == sat32(i as nat),
            path_views(modified@) == modified_paths(records@.take(i as int)),
            path_views(untracked@) == untracked_capped(records@.take(i as int)),
            untracked@.len() == untracked_capped(records@.take(i as int)).len(),
        decreases records@.len() - i,
    {
        proof {
            assert(records@.take(i + 1).drop_last() =~= records@.take(i as int));
            assert(records@.take(i + 1).last() == records@[i as int]);
        }
        dirty = sat_add_u32(dirty, 1);
        let ghost u_prev = untracked_paths(records@.take(i as int));
        let ghost u_next = untracked_paths(records@.take(i + 1));
        match &records[i] {
            StatusRecord::Modification { rela_path, .. } => {
                modified.push(rela_path.clone());
                proof {
                    assert(path_views(modified@) =~= modified_paths(records@.take(i + 1)));
                }
            },
            StatusRecord::DirectoryContents { rela_path } => {
                proof {
                    assert(u_next == u_prev.push(rela_path@));
                }
                if untracked.len() < MAX_UNTRACKED_TO_COUNT {
                    untracked.push(rela_path.clone());
                    proof {
                        assert(u_prev.len() == untracked@.len() - 1 < 200);
                        assert(u_next.len() <= 200);
                        assert(path_views(untracked@) =~= untracked_capped(records@.take(i + 1)));
                    }
                } else {
                    proof {
                        assert(u_prev.len() >= 200);
                        assert(u_next.take(200) =~= u_prev.take(200));
                        assert(path_views(untracked@) =~= untracked_capped(records@.take(i + 1)));
                    }
                }
            },
            StatusRecord::Rewrite { .. } => {
                proof {
                    assert(path_views(modified@) =~= modified_paths(records@.take(i + 1)));
                    assert(path_views(untracked@) =~= untracked_capped(records@.take(i + 1)));
                }
            },
        }
        proof {
            assert(path_views(modified@) =~= modified_paths(records@.take(i + 1)));
        }
        i += 1;
    }
    proof {
        assert(records@.take(records@.len() as int) =~= records@);
    }
    StatusPartition {
        dirty_file_count: dirty,
        modified_rel_paths: modified,
        untracked_rel_paths: untracked,
    }
}

/// How many ancestry entries precede the first occurrence of the base id:
/// the ahead count, which excludes the merge-base itself and spans the whole
/// walk when the base never occurs.
pub open spec fn ahead_spec(ids: Seq<Vec<u8>>, base: Seq<u8>) -> nat
    decreases ids.len(),
{
    if ids.len() == 0 {
        0
    } else if ids.first()@ == base {
        0
    } else {
        1 + ahead_spec(ids.drop_first(), base)
    }
}

proof fn lemma_ahead_found(ids: Seq<Vec<u8>>, base: Seq<u8>, i: int)
    requires
        0 <= i < ids.len(),
        forall|k: int| 0 <= k < i ==> ids[k]@ != base,
        ids[i]@ == base,
    ensures
        ahead_spec(ids, base) == i,
    decreases i,
{
    if i > 0 {
        lemma_ahead_found(ids.drop_first(), base, i - 1);
    }
}

proof fn lemma_ahead_none(ids: Seq<Vec<u8>>, base: Seq<u8>)
    requires
        forall|k: int| 0 <= k < ids.len() ==> ids[k]@ != base,
    ensures
        ahead_spec(ids, base) == ids.len(),
    decreases ids.len(),
{
    if ids.len() > 0 {
        lemma_ahead_none(ids.drop_first(), base);
    }
}

/// Counts the commits visited before the base id is encountered, saturating
/// at the 32-bit unsigned range.
pub fn count_until(ids: &Vec<Vec<u8>>, base: &Vec<u8>) -> (r: u32)
    ensures
        r as nat == sat32(ahead_spec(ids@, base@)),
{
    let mut i: usize = 0;
    let mut n: u32 = 0;
    while i < ids.len()
        invariant
            0 <= i <= ids@.len(),
            n as nat == sat32(i as nat),
            forall|k: int| 0 <= k < i ==> ids@[k]@ != base@,
        decreases ids@.len() - i,
    {
        if bytes_eq(&ids[i], base) {
            proof {
                lemma_ahead_found(ids@, base@, i as int);
            }
            return n;
        }
        n = sat_add_u32(n, 1);
        i += 1;
    }
    proof {
        lemma_ahead_none(ids@, base@);
    }
    n
}

/// Branch divergence: the remote-tracking check, the ahead count against the
/// upstream or the explicit base, and the merge-containment check against a
/// possibly different project repository. A detached or unborn HEAD yields
/// no divergence information; so does every missing reference or failed
/// merge-base lookup.
pub fn compute_divergence(
    repo: &gix::Repository,
    head_id: &Vec<u8>,
    branch_name: &Option<String>,
    base_branch: &Option<String>,
    worktree_cwd: &str,
    project_cwd: &Option<String>,
) -> (d: (u32, bool, bool))
    ensures
        branch_name is None ==> d == (0u32, false, false),
{
    let branch: &String = match branch_name {
        Some(b) => b,
        None => {
            return (0, false, false);
        },
    };
    let mut upstream_name = String::from_str("refs/remotes/origin/");
    upstream_name.append(branch.as_str());
    let has_remote_branch = gitio::ref_exists(repo, upstream_name.as_str());
    let mut unpushed: u32 = 0;
    if has_remote_branch {
        if let Some(upstream_id) = gitio::peeled_ref_id(repo, upstream_name.as_str()) {
            if let Some(base_id) = gitio::merge_base_id(repo, head_id, &upstream_id) {
                if let Some(ids) = gitio::ancestry_ids(repo, head_id) {
                    unpushed = count_until(&ids, &base_id);
                }
            }
        }
    } else if let Some(base) = base_branch {
        let mut base_ref_name = String::from_str("refs/heads/");
        base_ref_name.append(base.as_str());
        if let Some(base_tip) = gitio::peeled_ref_id(repo, base_ref_name.as_str()) {
            if let Some(mb_id) = gitio::merge_base_id(repo, head_id, &base_tip) {
                if let Some(ids) = gitio::ancestry_ids(repo, head_id) {
                    unpushed = count_until(&ids, &mb_id);
                }
            }
        }
    }
    let mut is_merged_into_base = false;
    if let Some(base) = base_branch {
        let project_path: &str = match project_cwd {
            Some(p) => p.as_str(),
            None => worktree_cwd,
        };
        if let Ok(project_repo) = gitio::open_repo(project_path) {
            let mut base_ref_name = String::from_str("refs/heads/");
            base_ref_name.append(base.as_str());
            if let Some(base_id) = gitio::peeled_ref_id(&project_repo, base_ref_name.as_str()) {
                let mut branch_ref_name = String::from_str("refs/heads/");
                branch_ref_name.append(branch.as_str());
                if let Some(branch_id) = gitio::peeled_ref_id(
                    &project_repo,
                    branch_ref_name.as_str(),
                ) {
                    if let Some(mb_id) = gitio::merge_base_id(&project_repo, &base_id, &branch_id) {
                        is_merged_into_base = !bytes_eq(&mb_id, &branch_id);
                    }
                }
            }
        }
    }
    (unpushed, has_remote_branch, is_merged_into_base)
}

/// Scans the repository: reads HEAD and its tree, enumerates every
/// index-vs-worktree difference (stream failures are fatal), partitions the
/// records, resolves the old blob side of every tracked modification (a
/// failed lookup is tolerated and recorded as None, which reads as an empty
/// old side), and computes divergence. A detached HEAD reports no
/// divergence. Only opening the repository, reading HEAD, its commit or its
/// tree, and the difference stream can fail; divergence lookups never do.
pub fn scan_status(
    worktree_cwd: &str,
    base_branch: &Option<String>,
    project_cwd: &Option<String>,
) -> (r: Result<StatusScan, GitError>)
    ensures
        r matches Ok(s) ==> (s.branch_name is None ==> s.unpushed_commit_count == 0
            && !s.has_remote_branch && !s.is_merged_into_base),
        r matches Ok(s) ==> s.untracked@.len() <= 200,
        r matches Err(e) ==> e == GitError::RepositoryOpen || e == GitError::ReferenceResolution
            || e == GitError::ObjectRead || e == GitError::StatusEnumeration,
{
    let repo = match gitio::open_repo(worktree_cwd) {
        Ok(repo) => repo,
        Err(e) => return Err(e),
    };
    let branch_name = match gitio::head_branch_short_name(&repo) {
        Ok(b) => b,
        Err(e) => return Err(e),
    };
    let head_id = match gitio::head_commit_id(&repo) {
        Ok(id) => id,
        Err(e) => return Err(e),
    };
    match gitio::head_tree_check(&repo) {
        Ok(_) => (),
        Err(e) => return Err(e),
    };
    let records = match gitio::status_records_with_untracked_files(&repo) {
        Ok(r) => r,
        Err(e) => return Err(e),
    };
    let partition = partition_records(&records);
    let mut modified: Vec<ModifiedOld> = Vec::new();
    let mut i: usize = 0;
    let paths = partition.modified_rel_paths;
    while i < paths.len()
        invariant
            0 <= i <= paths@.len(),
        decreases paths@.len() - i,
    {
        let old_bytes = gitio::blob_bytes_at_head(&repo, paths[i].as_str());
        modified.push(ModifiedOld { rela_path: paths[i].clone(), old_bytes });
        i += 1;
    }
    let (unpushed, has_remote, merged) = compute_divergence(
        &repo,
        &head_id,
        &branch_name,
        base_branch,
        worktree_cwd,
        project_cwd,
    );
    proof {
        assert(path_views(partition.untracked_rel_paths@).len()
            == partition.untracked_rel_paths@.len());
    }
    Ok(
        StatusScan {
            branch_name,
            dirty_file_count: partition.dirty_file_count,
            modified,
            untracked: partition.untracked_rel_paths,
            unpushed_commit_count: unpushed,
            has_remote_branch: has_remote,
            is_merged_into_base: merged,
        },
    )
}

/// The bytes a read worktree file contributes as the new side of a diff: an
/// unreadable file contributes an empty side.
pub open spec fn new_side(n: Option<Vec<u8>>) -> Seq<u8> {
    match n {
        Some(v) => v@,
        None => Seq::empty(),
    }
}

/// The bytes a HEAD blob contributes as the old side of a diff: a missing or
/// failed lookup contributes an empty side.
pub open spec fn old_side(n: Option<Vec<u8>>) -> Seq<u8> {
    match n {
        Some(v) => v@,
        None => Seq::empty(),
    }
}

/// The added-lines contribution of one untracked file: nothing when its
/// metadata could not be read, when it is empty, or when it exceeds
/// MAX_UNTRACKED_FILE_SIZE; otherwise its saturated line count.
pub open spec fn untracked_added(f: Option<DiskFile>) -> nat {
    match f {
        None => 0,
        Some(d) => if d.size == 0 || d.size > 524288 {
            0
        } else {
            sat32(line_count_spec(d.bytes@))
        },
    }
}

/// A left-to-right sum saturating at the 32-bit unsigned range at each step.
pub open spec fn sat_sum(s: Seq<nat>) -> nat
    decreases s.len(),
{
    if s.len() == 0 {
        0
    } else {
        sat32(sat_sum(s.drop_last()) + s.last())
    }
}

proof fn lemma_sat_sum_take_step(s: Seq<nat>, i: int)
    requires
        0 <= i < s.len(),
    ensures
        sat_sum(s.take(i + 1)) == sat32(sat_sum(s.take(i)) + s[i]),
{
    let t = s.take(i + 1);
    assert(t.drop_last() =~= s.take(i));
    assert(t.last() == s[i]);
}

/// The per-item added-lines contributions of a summary: one per tracked
/// modification (the diff of old blob against disk bytes), then one per
/// examined untracked file.
pub open spec fn added_contribs(
    mods: Seq<ModifiedOld>,
    news: Seq<Option<Vec<u8>>>,
    untracked: Seq<Option<DiskFile>>,
) -> Seq<nat> {
    Seq::new(
        mods.len(),
        |i: int| diff_counts_spec(old_side(mods[i].old_bytes), new_side(news[i])).0,
    ) + Seq::new(untracked.len(), |i: int| untracked_added(untracked[i]))
}

/// The per-item deleted-lines contributions: untracked files never delete.
pub open spec fn deleted_contribs(mods: Seq<ModifiedOld>, news: Seq<Option<Vec<u8>>>) -> Seq<
    nat,
> {
    Seq::new(
        mods.len(),
        |i: int| diff_counts_spec(old_side(mods[i].old_bytes), new_side(news[i])).1,
    )
}

/// Completes a status scan once the worktree files are read: diffs every
/// tracked modification's old blob against its disk bytes (a missing blob or
/// an unreadable file reads as an empty side, per old_side and new_side),
/// counts lines of every eligible untracked file, and carries the scan's
/// dirty count and divergence over unchanged. `news` pairs with
/// `scan.modified` by position, `untracked_files` with `scan.untracked`.
pub fn finish_status_summary(
    scan: &StatusScan,
    news: &Vec<Option<Vec<u8>>>,
    untracked_files: &Vec<Option<DiskFile>>,
) -> (s: GitStatusSummary)
    requires
        news@.len() == scan.modified@.len(),
        untracked_files@.len() == scan.untracked@.len(),
        forall|i: int|
            0 <= i < scan.modified@.len() ==> old_side(
                (#[trigger] scan.modified@[i]).old_bytes,
            ).len() < 0x7fff_ffff,
        forall|i: int|
            0 <= i < news@.len() ==> new_side(#[trigger] news@[i]).len() < 0x7fff_ffff,
    ensures
        s.dirty_file_count == scan.dirty_file_count,
        s.unpushed_commit_count == scan.unpushed_commit_count,
        s.has_remote_branch == scan.has_remote_branch,
        s.is_merged_into_base == scan.is_merged_into_base,
        s.lines_added as nat == sat_sum(added_contribs(scan.modified@, news@, untracked_files@)),
        s.lines_deleted as nat == sat_sum(deleted_contribs(scan.modified@, news@)),
{
    let ghost a_all = added_contribs(scan.modified@, news@, untracked_files@);
    let ghost d_all = deleted_contribs(scan.modified@, news@);
    let empty: Vec<u8> = Vec::new();
    let mut lines_added: u32 = 0;
    let mut lines_deleted: u32 = 0;
    let mut i: usize = 0;
    let n_mods = scan.modified.len();
    while i < n_mods
        invariant
            0 <= i <= scan.modified@.len(),
            n_mods == scan.modified@.len(),
            news@.len() == scan.modified@.len(),
            empty@ == Seq::<u8>::empty(),
            a_all == added_contribs(scan.modified@, news@, untracked_files@),
            d_all == deleted_contribs(scan.modified@, news@),
            a_all.len() == scan.modified@.len() + untracked_files@.len(),
            d_all.len() == scan.modified@.len(),
            forall|k: int|
                0 <= k < scan.modified@.len() ==> old_side(
                    (#[trigger] scan.modified@[k]).old_bytes,
                ).len() < 0x7fff_ffff,
            forall|k: int|
                0 <= k < news@.len() ==> new_side(#[trigger] news@[k]).len() < 0x7fff_ffff,
            lines_added as nat == sat_sum(a_all.take(i as int)),
            lines_deleted as nat == sat_sum(d_all.take(i as int)),
        decreases n_mods - i,
    {
        proof {
            lemma_sat_sum_take_step(a_all, i as int);
            lemma_sat_sum_take_step(d_all, i as int);
        }
        let new_ref: &Vec<u8> = match &news[i] {
            Some(v) => v,
            None => &empty,
        };
        let old_ref: &Vec<u8> = match &scan.modified[i].old_bytes {
            Some(v) => v,
            None => &empty,
        };
        let (a, d) = diff_line_counts(old_ref, new_ref);
        proof {
            assert(old_ref@ == old_side(scan.modified@[i as int].old_bytes));
            assert(new_ref@ == new_side(news@[i as int]));
            assert(a_all[i as int] == diff_counts_spec(
                old_side(scan.modified@[i as int].old_bytes),
                new_side(news@[i as int]),
            ).0);
        }
        lines_added = sat_add_u32(lines_added, a);
        lines_deleted = sat_add_u32(lines_deleted, d);
        i += 1;
    }
    proof {
        assert(d_all.take(d_all.len() as int) =~= d_all);
    }
    let mut j: usize = 0;
    let n_untr = untracked_files.len();
    while j < n_untr
        invariant
            0 <= j <= untracked_files@.len(),
            n_untr == untracked_files@.len(),
            a_all == added_contribs(scan.modified@, news@, untracked_files@),
            a_all.len() == scan.modified@.len() + untracked_files@.len(),
            lines_added as nat == sat_sum(a_all.take(scan.modified@.len() + j)),
        decreases n_untr - j,
    {
        proof {
            lemma_sat_sum_take_step(a_all, scan.modified@.len() + j);
            assert(a_all[scan.modified@.len() + j] == untracked_added(
                untracked_files@[j as int],
            ));
        }
        match &untracked_files[j] {
            Some(d) => {
                if d.size == 0 || d.size > MAX_UNTRACKED_FILE_SIZE {
                    // Skipped for line counting; still dirty.
                } else {
                    let c = count_file_lines(&d.bytes);
                    lines_added = sat_add_u32(lines_added, c);
                }
            },
            None => {},
        }
        j += 1;
    }
    proof {
        assert(a_all.take(a_all.len() as int) =~= a_all);
    }
    GitStatusSummary {
        dirty_file_count: scan.dirty_file_count,
        unpushed_commit_count: scan.unpushed_commit_count,
        has_remote_branch: scan.has_remote_branch,
        is_merged_into_base: scan.is_merged_into_base,
        lines_added,
        lines_deleted,
    }
}

/// A repository with zero differences yields a dirty-file count of zero and
/// zero line tallies, whatever the branch and divergence state: an empty
/// record stream partitions to nothing, and empty contribution lists sum to
/// zero.
pub proof fn lemma_zero_differences_zero_summary()
    ensures
        sat32(Seq::<StatusRecord>::empty().len()) == 0,
        modified_paths(Seq::<StatusRecord>::empty()) == Seq::<Seq<char>>::empty(),
        untracked_capped(Seq::<StatusRecord>::empty()) == Seq::<Seq<char>>::empty(),
        sat_sum(added_contribs(Seq::empty(), Seq::empty(), Seq::empty())) == 0,
        sat_sum(deleted_contribs(Seq::empty(), Seq::empty())) == 0,
{
    assert(added_contribs(Seq::empty(), Seq::empty(), Seq::empty()) =~= Seq::<nat>::empty());
    assert(deleted_contribs(Seq::empty(), Seq::empty()) =~= Seq::<nat>::empty());
}

} // verus!
