use native_git::branch::{
    dedup_remote, default_from, get_current_branch, get_default_branch, list_branches,
    select_branch_list, select_default_local,
};
use native_git::errors::GitError;
use native_git::text::{str_contains_str, strip_origin_prefix};

#[test]
fn remote_fallback_filters_strips_and_dedups() {
    let remote: Vec<String> = vec![
        "origin/HEAD".to_string(),
        "origin/main".to_string(),
        "origin/feature".to_string(),
        "upstream/main".to_string(),
        "origin/main".to_string(),
    ];
    let result = dedup_remote(&remote);
    assert_eq!(
        result,
        vec!["main".to_string(), "feature".to_string(), "upstream/main".to_string()]
    );
}

#[test]
fn remote_fallback_keeps_first_seen_order() {
    let remote: Vec<String> = vec![
        "origin/beta".to_string(),
        "origin/alpha".to_string(),
        "origin/beta".to_string(),
    ];
    let result = dedup_remote(&remote);
    assert_eq!(result, vec!["beta".to_string(), "alpha".to_string()]);
}

#[test]
fn branch_list_selection_prefers_local() {
    let local: Vec<String> = vec!["dev".to_string()];
    let remote: Vec<String> = vec!["origin/other".to_string()];
    let picked = select_branch_list(local, &remote, Some("head".to_string()));
    assert_eq!(picked, vec!["dev".to_string()]);
}

#[test]
fn branch_list_selection_falls_back_to_remote_then_head() {
    let no_local: Vec<String> = Vec::new();
    let remote: Vec<String> = vec!["origin/main".to_string(), "origin/HEAD".to_string()];
    let picked = select_branch_list(no_local.clone(), &remote, Some("head".to_string()));
    assert_eq!(picked, vec!["main".to_string()]);

    let only_head: Vec<String> = vec!["origin/HEAD".to_string()];
    let picked = select_branch_list(no_local.clone(), &only_head, Some("head".to_string()));
    assert_eq!(picked, vec!["head".to_string()]);

    let nothing: Vec<String> = Vec::new();
    let picked = select_branch_list(no_local, &nothing, None);
    assert!(picked.is_empty());
}

#[test]
fn default_resolution_prefers_remote_head() {
    let local: Vec<String> = vec!["main".to_string()];
    assert_eq!(
        default_from(Some("origin/trunk".to_string()), &local),
        Some("trunk".to_string())
    );
    assert_eq!(default_from(None, &local), Some("main".to_string()));
}

#[test]
fn default_branch_prefers_main() {
    let local: Vec<String> = vec!["feature".to_string(), "main".to_string()];
    assert_eq!(select_default_local(&local), Some("main".to_string()));
}

#[test]
fn default_branch_preference_order() {
    let local: Vec<String> = vec!["dev".to_string(), "master".to_string()];
    assert_eq!(select_default_local(&local), Some("master".to_string()));
    let local2: Vec<String> = vec!["topic".to_string(), "develop".to_string()];
    assert_eq!(select_default_local(&local2), Some("develop".to_string()));
    let local3: Vec<String> = vec!["topic".to_string(), "other".to_string()];
    assert_eq!(select_default_local(&local3), Some("topic".to_string()));
    let local4: Vec<String> = Vec::new();
    assert_eq!(select_default_local(&local4), None);
}

#[test]
fn strip_origin_prefix_cases() {
    assert_eq!(strip_origin_prefix("origin/dev"), "dev");
    assert_eq!(strip_origin_prefix("main"), "main");
    assert_eq!(strip_origin_prefix("upstream/dev"), "upstream/dev");
    assert_eq!(strip_origin_prefix("origin/"), "");
    assert_eq!(strip_origin_prefix("orig"), "orig");
}

#[test]
fn substring_containment() {
    assert!(str_contains_str("origin/HEAD", "HEAD"));
    assert!(str_contains_str("abc", ""));
    assert!(!str_contains_str("abc", "abcd"));
    assert!(str_contains_str("abcd", "bc"));
    assert!(!str_contains_str("abcd", "ca"));
}

#[test]
fn branch_queries_fail_on_missing_repository() {
    assert!(matches!(
        get_current_branch("/nonexistent/path/for/sure"),
        Err(GitError::RepositoryOpen)
    ));
    assert!(matches!(list_branches("/nonexistent/path/for/sure"), Err(GitError::RepositoryOpen)));
    assert!(matches!(
        get_default_branch("/nonexistent/path/for/sure"),
        Err(GitError::RepositoryOpen)
    ));
}
