//! Branch resolution: the current branch, the branch listing with its
//! remote-tracking and HEAD fallbacks, and the default-branch heuristic.

use vstd::prelude::*;
use vstd::string::*;

use crate::errors::GitError;
use crate::gitio;
use crate::text::{
    seq_contains, seq_has_string, str_contains_str, strip_origin_spec, strip_origin_prefix,
    vec_contains_string,
};

verus! {

/// The character sequences a sequence of strings reads as.
pub open spec fn views_of(v: Seq<String>) -> Seq<Seq<char>> {
    v.map_values(|s: String| s@)
}

/// What the remote-tracking fallback produces: every shortened remote name,
/// in order, skipping names that contain "HEAD", with a leading "origin/"
/// stripped, de-duplicated by first-seen resulting name.
pub open spec fn process_remote_spec(remote: Seq<String>) -> Seq<Seq<char>>
    decreases remote.len(),
{
    if remote.len() == 0 {
        Seq::empty()
    } else {
        let prev = process_remote_spec(remote.drop_last());
        let name = remote.last()@;
        if seq_contains(name, "HEAD"@) {
            prev
        } else {
            let stripped = strip_origin_spec(name);
            if prev.contains(stripped) {
                prev
            } else {
                prev.push(stripped)
            }
        }
    }
}

/// Filters, strips and de-duplicates remote-tracking branch names.
pub fn dedup_remote(remote: &Vec<String>) -> (r: Vec<String>)
    ensures
        views_of(r@) == process_remote_spec(remote@),
{
    let mut out: Vec<String> = Vec::new();
    let mut i: usize = 0;
    while i < remote.len()
        invariant
            0 <= i <= remote@.len(),
            views_of(out@) == process_remote_spec(remote@.take(i as int)),
        decreases remote@.len() - i,
    {
        proof {
            assert(remote@.take(i + 1).drop_last() =~= remote@.take(i as int));
            assert(remote@.take(i + 1).last() == remote@[i as int]);
        }
        let name = &remote[i];
        if !str_contains_str(name.as_str(), "HEAD") {
            let stripped = strip_origin_prefix(name.as_str());
            let dup = vec_contains_string(&out, &stripped);
            proof {
                let prev = views_of(out@);
                if seq_has_string(out@, stripped@) {
                    let k = choose|k: int| 0 <= k < out@.len() && out@[k]@ == stripped@;
                    assert(prev[k] == stripped@);
                }
                if prev.contains(stripped@) {
                    let k = choose|k: int| 0 <= k < prev.len() && prev[k] == stripped@;
                    assert(out@[k]@ == stripped@);
                }
            }
            if !dup {
                out.push(stripped);
                proof {
                    assert(views_of(out@) =~= process_remote_spec(remote@.take(i + 1)));
                }
            }
        }
        i += 1;
    }
    proof {
        assert(remote@.take(remote@.len() as int) =~= remote@);
    }
    out
}

/// What a branch listing yields: the local names when any exist; otherwise
/// the filtered, stripped and de-duplicated remote-tracking names when that
/// leaves any; otherwise the symbolic HEAD name alone, or nothing.
pub open spec fn branch_list_spec(
    local: Seq<String>,
    remote: Seq<String>,
    head: Option<String>,
) -> Seq<Seq<char>> {
    if local.len() > 0 {
        views_of(local)
    } else if process_remote_spec(remote).len() > 0 {
        process_remote_spec(remote)
    } else {
        match head {
            Some(h) => seq![h@],
            None => Seq::empty(),
        }
    }
}

/// Chooses the branch listing: local names, else the remote-tracking
/// fallback, else the symbolic HEAD name.
pub fn select_branch_list(local: Vec<String>, remote: &Vec<String>, head: Option<String>) -> (r:
    Vec<String>)
    ensures
        views_of(r@) == branch_list_spec(local@, remote@, head),
{
    if local.len() > 0 {
        return local;
    }
    let processed = dedup_remote(remote);
    if processed.len() > 0 {
        proof {
            assert(views_of(processed@).len() == processed@.len());
        }
        return processed;
    }
    proof {
        assert(views_of(processed@).len() == processed@.len());
    }
    match head {
        Some(h) => {
            let mut v: Vec<String> = Vec::new();
            v.push(h);
            proof {
                assert(views_of(v@) =~= seq![v@[0]@]);
            }
            v
        },
        None => {
            let v: Vec<String> = Vec::new();
            proof {
                assert(views_of(v@) =~= Seq::<Seq<char>>::empty());
            }
            v
        },
    }
}

/// The default-branch preference among local branches: "main", then
/// "master", then "develop", then the first local branch, else none.
pub open spec fn default_local_spec(local: Seq<String>) -> Option<Seq<char>> {
    if seq_has_string(local, "main"@) {
        Some("main"@)
    } else if seq_has_string(local, "master"@) {
        Some("master"@)
    } else if seq_has_string(local, "develop"@) {
        Some("develop"@)
    } else if local.len() > 0 {
        Some(local[0]@)
    } else {
        None
    }
}

/// Picks the default branch from the local branch names.
pub fn select_default_local(local: &Vec<String>) -> (r: Option<String>)
    ensures
        r is Some <==> default_local_spec(local@) is Some,
        r matches Some(s) ==> s@ == default_local_spec(local@).unwrap(),
{
    let main = String::from_str("main");
    if vec_contains_string(local, &main) {
        return Some(main);
    }
    let master = String::from_str("master");
    if vec_contains_string(local, &master) {
        return Some(master);
    }
    let develop = String::from_str("develop");
    if vec_contains_string(local, &develop) {
        return Some(develop);
    }
    if local.len() > 0 {
        let first = local[0].clone();
        return Some(first);
    }
    None
}

/// A local branch literally named "main" is preferred as the default branch,
/// whatever other local branches exist and in whatever order they come.
pub proof fn lemma_main_preferred(local: Seq<String>)
    requires
        seq_has_string(local, "main"@),
    ensures
        default_local_spec(local) == Some("main"@),
{
}

/// The shortened name of the symbolic HEAD reference, or None when HEAD is
/// detached or unborn. Failures to open the repository or to read HEAD are
/// fatal.
pub fn get_current_branch(cwd: &str) -> (r: Result<Option<String>, GitError>)
    ensures
        r matches Err(e) ==> e == GitError::RepositoryOpen || e == GitError::ReferenceResolution,
{
    let repo = match gitio::open_repo(cwd) {
        Ok(repo) => repo,
        Err(e) => return Err(e),
    };
    gitio::head_branch_short_name(&repo)
}

/// Every local branch name; if none exist, the de-duplicated remote-tracking
/// fallback of process_remote_spec; if still none, the shortened symbolic
/// HEAD name when one can be read. The listing always follows
/// branch_list_spec of the fetched name lists; reference enumerations that
/// the selection cannot need are not fetched.
pub fn list_branches(cwd: &str) -> (r: Result<Vec<String>, GitError>)
    ensures
        r matches Err(e) ==> e == GitError::RepositoryOpen || e == GitError::ReferenceResolution,
        r matches Ok(v) ==> exists|local: Seq<String>, remote: Seq<String>, head: Option<String>|
            views_of(v@) == #[trigger] branch_list_spec(local, remote, head),
{
    let repo = match gitio::open_repo(cwd) {
        Ok(repo) => repo,
        Err(e) => return Err(e),
    };
    let local = match gitio::local_branch_names(&repo) {
        Ok(names) => names,
        Err(e) => return Err(e),
    };
    let remote: Vec<String> = if local.len() == 0 {
        match gitio::remote_branch_names(&repo) {
            Ok(names) => names,
            Err(e) => return Err(e),
        }
    } else {
        Vec::new()
    };
    let head: Option<String> = if local.len() == 0 && dedup_remote(&remote).len() == 0 {
        match gitio::head_branch_short_name(&repo) {
            Ok(Some(h)) => Some(h),
            _ => None,
        }
    } else {
        None
    };
    let ghost g_local = local@;
    let ghost g_remote = remote@;
    let ghost g_head = head;
    let branches = select_branch_list(local, &remote, head);
    proof {
        assert(views_of(branches@) == branch_list_spec(g_local, g_remote, g_head));
    }
    Ok(branches)
}

/// The default branch a remote HEAD name and the local branches resolve to:
/// the prefix-stripped remote HEAD name when one exists, otherwise the
/// default_local_spec preference among the local branches.
pub open spec fn default_branch_spec(remote_head: Option<String>, local: Seq<String>) -> Option<
    Seq<char>,
> {
    match remote_head {
        Some(n) => Some(strip_origin_spec(n@)),
        None => default_local_spec(local),
    }
}

/// Resolves the default branch from the remote HEAD name and the local
/// branch names.
pub fn default_from(remote_head: Option<String>, local: &Vec<String>) -> (r: Option<String>)
    ensures
        r is Some <==> default_branch_spec(remote_head, local@) is Some,
        r matches Some(s) ==> s@ == default_branch_spec(remote_head, local@).unwrap(),
{
    match &remote_head {
        Some(name) => Some(strip_origin_prefix(name.as_str())),
        None => select_default_local(local),
    }
}

/// The default branch: the prefix-stripped target of the remote HEAD
/// reference when it exists, otherwise the default_local_spec preference
/// among local branches, as default_branch_spec states; the local listing is
/// only fetched when the remote HEAD is missing.
pub fn get_default_branch(cwd: &str) -> (r: Result<Option<String>, GitError>)
    ensures
        r matches Err(e) ==> e == GitError::RepositoryOpen || e == GitError::ReferenceResolution,
        r matches Ok(v) ==> exists|remote_head: Option<String>, local: Seq<String>|
            {
                let d = #[trigger] default_branch_spec(remote_head, local);
                (v is Some <==> d is Some) && (v matches Some(s) ==> s@ == d.unwrap())
            },
{
    let repo = match gitio::open_repo(cwd) {
        Ok(repo) => repo,
        Err(e) => return Err(e),
    };
    let remote_head = gitio::reference_short_name(&repo, "refs/remotes/origin/HEAD");
    let local: Vec<String> = if remote_head.is_none() {
        match gitio::local_branch_names(&repo) {
            Ok(names) => names,
            Err(e) => return Err(e),
        }
    } else {
        Vec::new()
    };
    let ghost g_remote_head = remote_head;
    let ghost g_local = local@;
    let v = default_from(remote_head, &local);
    proof {
        let d = default_branch_spec(g_remote_head, g_local);
        assert((v is Some <==> d is Some) && (v matches Some(s) ==> s@ == d.unwrap()));
    }
    Ok(v)
}

} // verus!
