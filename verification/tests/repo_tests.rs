//! Queries against a small repository built through gix itself: an empty
//! tree committed to a branch, with no index and no worktree files, so the
//! status stream is empty and the history is exactly one commit.

use native_git::branch::{get_current_branch, get_default_branch, list_branches};
use native_git::log::get_log;
use native_git::status_summary::{finish_status_summary, scan_status, DiskFile};

fn signature() -> gix::actor::SignatureRef<'static> {
    gix::actor::SignatureRef {
        name: "Tester".into(),
        email: "tester@example.com".into(),
        time: "1700000000 +0000",
    }
}

fn ensure_repo(path: &str, extra_branches: &[&str]) -> gix::Repository {
    let repo = match gix::init(path) {
        Ok(r) => r,
        Err(e) => match gix::open(path) {
            Ok(r) => r,
            Err(_) => panic!("init failed: {e}"),
        },
    };
    let tree = repo.empty_tree().id().detach();
    let no_parents: Vec<gix::ObjectId> = Vec::new();
    if repo.head_commit().is_err() {
        repo.commit_as(signature(), signature(), "HEAD", "initial commit", tree, no_parents.clone())
            .expect("commit should succeed");
    }
    for branch in extra_branches {
        let name = format!("refs/heads/{branch}");
        if repo.find_reference(name.as_str()).is_err() {
            repo.commit_as(signature(), signature(), name.as_str(), "initial commit", tree, no_parents.clone())
                .expect("branch commit should succeed");
        }
    }
    repo
}

#[test]
fn current_branch_of_fresh_repository() {
    ensure_repo("/tmp/native_git_it_current", &[]);
    let branch = get_current_branch("/tmp/native_git_it_current").expect("repository opens");
    let name = branch.expect("HEAD is symbolic");
    assert!(!name.is_empty());
}

#[test]
fn log_of_single_commit() {
    ensure_repo("/tmp/native_git_it_log", &[]);
    let entries = get_log("/tmp/native_git_it_log", None).expect("log works");
    assert_eq!(entries.len(), 1);
    let entry = &entries[0];
    assert_eq!(entry.message, "initial commit");
    assert_eq!(entry.author, "Tester");
    assert_eq!(entry.short_hash, entry.hash[..7]);
    assert_eq!(entry.hash.len(), 40);
    assert!(entry.relative_date.ends_with("ago") || entry.relative_date == "just now");

    let none = get_log("/tmp/native_git_it_log", Some(0)).expect("log works");
    assert!(none.is_empty());
}

#[test]
fn clean_repository_has_zero_summary() {
    ensure_repo("/tmp/native_git_it_clean", &[]);
    let scan = scan_status("/tmp/native_git_it_clean", &None, &None).expect("scan works");
    assert_eq!(scan.dirty_file_count, 0);
    assert!(scan.modified.is_empty());
    assert!(scan.untracked.is_empty());
    assert!(scan.branch_name.is_some());
    assert!(!scan.has_remote_branch);
    assert_eq!(scan.unpushed_commit_count, 0);
    let news: Vec<Option<Vec<u8>>> = Vec::new();
    let disk: Vec<Option<DiskFile>> = Vec::new();
    let summary = finish_status_summary(&scan, &news, &disk);
    assert_eq!(summary.dirty_file_count, 0);
    assert_eq!(summary.lines_added, 0);
    assert_eq!(summary.lines_deleted, 0);
    assert!(!summary.is_merged_into_base);
}

#[test]
fn default_branch_prefers_main_over_earlier_branch() {
    ensure_repo("/tmp/native_git_it_default", &["aaa_feature", "main"]);
    let default = get_default_branch("/tmp/native_git_it_default").expect("repository opens");
    assert_eq!(default, Some("main".to_string()));
}

#[test]
fn empty_repository_has_unborn_head() {
    match gix::init("/tmp/native_git_it_empty") {
        Ok(_) => {}
        Err(_) => {
            gix::open("/tmp/native_git_it_empty").expect("repository exists from an earlier run");
        }
    }
    let branch = get_current_branch("/tmp/native_git_it_empty").expect("repository opens");
    assert_eq!(branch, None);
    assert!(matches!(
        get_log("/tmp/native_git_it_empty", None),
        Err(native_git::errors::GitError::ReferenceResolution)
    ));
    assert!(matches!(
        scan_status("/tmp/native_git_it_empty", &None, &None),
        Err(native_git::errors::GitError::ReferenceResolution)
    ));
}

#[test]
fn branch_listing_contains_created_branches() {
    ensure_repo("/tmp/native_git_it_list", &["main", "feature"]);
    let branches = list_branches("/tmp/native_git_it_list").expect("repository opens");
    assert!(branches.contains(&"main".to_string()));
    assert!(branches.contains(&"feature".to_string()));
}
