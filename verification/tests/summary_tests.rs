use native_git::diff_summary::{build_diff_summary, get_diff_summary, matches_any_pattern};
use native_git::errors::GitError;
use native_git::records::{classify, ModKind, StatusKind, StatusRecord};
use native_git::records::status_label;
use native_git::status_summary::{
    count_until, finish_status_summary, partition_records, scan_status, DiskFile, ModifiedOld,
    StatusScan,
};

fn modification(path: &str, kind: ModKind) -> StatusRecord {
    StatusRecord::Modification { rela_path: path.to_string(), kind }
}

fn untracked(path: &str) -> StatusRecord {
    StatusRecord::DirectoryContents { rela_path: path.to_string() }
}

fn rewrite(path: &str) -> StatusRecord {
    StatusRecord::Rewrite { rela_path: path.to_string() }
}

#[test]
fn classification_table() {
    assert_eq!(classify(&modification("f", ModKind::Conflict)), StatusKind::Modified);
    assert_eq!(classify(&modification("f", ModKind::Removed)), StatusKind::Deleted);
    assert_eq!(classify(&modification("f", ModKind::TypeChange)), StatusKind::Modified);
    assert_eq!(classify(&modification("f", ModKind::ContentModification)), StatusKind::Modified);
    assert_eq!(classify(&modification("f", ModKind::SubmoduleModification)), StatusKind::Modified);
    assert_eq!(classify(&modification("f", ModKind::NeedsUpdate)), StatusKind::Modified);
    assert_eq!(classify(&modification("f", ModKind::IntentToAdd)), StatusKind::Added);
    assert_eq!(classify(&untracked("f")), StatusKind::Added);
    assert_eq!(classify(&rewrite("f")), StatusKind::Renamed);
}

#[test]
fn status_labels() {
    assert_eq!(status_label(StatusKind::Added), "added");
    assert_eq!(status_label(StatusKind::Modified), "modified");
    assert_eq!(status_label(StatusKind::Deleted), "deleted");
    assert_eq!(status_label(StatusKind::Renamed), "renamed");
}

#[test]
fn exclude_patterns_match_substrings() {
    let patterns: Vec<String> = vec!["node_modules".to_string(), ".lock".to_string()];
    assert!(matches_any_pattern("pkg/node_modules/a.js", &patterns));
    assert!(matches_any_pattern("Cargo.lock", &patterns));
    assert!(!matches_any_pattern("src/main.rs", &patterns));
    let none: Vec<String> = Vec::new();
    assert!(!matches_any_pattern("anything", &none));
}

#[test]
fn excluded_paths_never_appear() {
    let records = vec![
        modification("src/a.rs", ModKind::ContentModification),
        untracked("notes.txt"),
        modification("src/b.rs", ModKind::Removed),
    ];
    let exclude: Vec<String> = vec![".rs".to_string()];
    let summary = build_diff_summary(&records, &exclude, 0);
    assert_eq!(summary.total, 1);
    assert!(!summary.truncated);
    assert_eq!(summary.files.len(), 1);
    assert_eq!(summary.files[0].path, "notes.txt");
    assert_eq!(summary.files[0].status, "added");
    assert!(!summary.files[0].staged);
}

#[test]
fn truncation_behaviour() {
    let records = vec![
        untracked("a"),
        untracked("b"),
        untracked("c"),
    ];
    let exclude: Vec<String> = Vec::new();
    let unlimited = build_diff_summary(&records, &exclude, 0);
    assert_eq!(unlimited.total, 3);
    assert!(!unlimited.truncated);
    assert_eq!(unlimited.files.len(), 3);

    let capped = build_diff_summary(&records, &exclude, 2);
    assert_eq!(capped.total, 3);
    assert!(capped.truncated);
    assert_eq!(capped.files.len(), 2);
    assert_eq!(capped.files[0].path, "a");
    assert_eq!(capped.files[1].path, "b");

    let exact = build_diff_summary(&records, &exclude, 3);
    assert!(!exact.truncated);
    assert_eq!(exact.files.len(), 3);
}

#[test]
fn partition_splits_records() {
    let records = vec![
        modification("m1", ModKind::ContentModification),
        untracked("u1"),
        rewrite("r1"),
        modification("m2", ModKind::Removed),
        untracked("u2"),
    ];
    let partition = partition_records(&records);
    assert_eq!(partition.dirty_file_count, 5);
    assert_eq!(partition.modified_rel_paths, vec!["m1".to_string(), "m2".to_string()]);
    assert_eq!(partition.untracked_rel_paths, vec!["u1".to_string(), "u2".to_string()]);
}

#[test]
fn partition_caps_untracked_at_two_hundred() {
    let mut records: Vec<StatusRecord> = Vec::new();
    let mut i = 0usize;
    while i < 250 {
        records.push(untracked(&format!("file{}", i)));
        i += 1;
    }
    let partition = partition_records(&records);
    assert_eq!(partition.dirty_file_count, 250);
    assert_eq!(partition.untracked_rel_paths.len(), 200);
    assert_eq!(partition.untracked_rel_paths[0], "file0");
    assert_eq!(partition.untracked_rel_paths[199], "file199");
}

#[test]
fn count_until_stops_at_base() {
    let ids: Vec<Vec<u8>> = vec![vec![1], vec![2], vec![3], vec![4]];
    assert_eq!(count_until(&ids, &vec![1]), 0);
    assert_eq!(count_until(&ids, &vec![3]), 2);
    assert_eq!(count_until(&ids, &vec![9]), 4);
    let none: Vec<Vec<u8>> = Vec::new();
    assert_eq!(count_until(&none, &vec![1]), 0);
}

fn empty_scan() -> StatusScan {
    StatusScan {
        branch_name: None,
        dirty_file_count: 0,
        modified: Vec::new(),
        untracked: Vec::new(),
        unpushed_commit_count: 0,
        has_remote_branch: false,
        is_merged_into_base: false,
    }
}

#[test]
fn zero_differences_zero_summary() {
    let scan = empty_scan();
    let news: Vec<Option<Vec<u8>>> = Vec::new();
    let disk: Vec<Option<DiskFile>> = Vec::new();
    let summary = finish_status_summary(&scan, &news, &disk);
    assert_eq!(summary.dirty_file_count, 0);
    assert_eq!(summary.lines_added, 0);
    assert_eq!(summary.lines_deleted, 0);
    assert_eq!(summary.unpushed_commit_count, 0);
    assert!(!summary.has_remote_branch);
    assert!(!summary.is_merged_into_base);
}

#[test]
fn modified_file_three_to_five_lines() {
    let mut scan = empty_scan();
    scan.dirty_file_count = 1;
    scan.modified.push(ModifiedOld {
        rela_path: "file.txt".to_string(),
        old_bytes: Some(b"one\ntwo\nthree\n".to_vec()),
    });
    let news: Vec<Option<Vec<u8>>> = vec![Some(b"one\ntwo\nthree\nfour\nfive\n".to_vec())];
    let disk: Vec<Option<DiskFile>> = Vec::new();
    let summary = finish_status_summary(&scan, &news, &disk);
    assert_eq!(summary.lines_added, 2);
    assert_eq!(summary.lines_deleted, 0);
    assert_eq!(summary.dirty_file_count, 1);
}

#[test]
fn unreadable_new_side_counts_as_deleted() {
    let mut scan = empty_scan();
    scan.modified.push(ModifiedOld {
        rela_path: "gone.txt".to_string(),
        old_bytes: Some(b"a\nb\n".to_vec()),
    });
    let news: Vec<Option<Vec<u8>>> = vec![None];
    let disk: Vec<Option<DiskFile>> = Vec::new();
    let summary = finish_status_summary(&scan, &news, &disk);
    assert_eq!(summary.lines_added, 0);
    assert_eq!(summary.lines_deleted, 2);
}

#[test]
fn missing_old_blob_counts_as_empty_side() {
    let mut scan = empty_scan();
    scan.modified.push(ModifiedOld { rela_path: "new.txt".to_string(), old_bytes: None });
    let news: Vec<Option<Vec<u8>>> = vec![Some(b"x\ny\ny\n".to_vec())];
    let disk: Vec<Option<DiskFile>> = Vec::new();
    let summary = finish_status_summary(&scan, &news, &disk);
    assert_eq!(summary.lines_added, 3);
    assert_eq!(summary.lines_deleted, 0);
}

#[test]
fn untracked_files_add_lines_within_limits() {
    let mut scan = empty_scan();
    scan.untracked.push("a.txt".to_string());
    scan.untracked.push("empty.txt".to_string());
    scan.untracked.push("big.txt".to_string());
    scan.untracked.push("unreadable.txt".to_string());
    let news: Vec<Option<Vec<u8>>> = Vec::new();
    let disk: Vec<Option<DiskFile>> = vec![
        Some(DiskFile { size: 4, bytes: b"x\ny\n".to_vec() }),
        Some(DiskFile { size: 0, bytes: Vec::new() }),
        Some(DiskFile { size: 600000, bytes: Vec::new() }),
        None,
    ];
    let summary = finish_status_summary(&scan, &news, &disk);
    assert_eq!(summary.lines_added, 2);
    assert_eq!(summary.lines_deleted, 0);
}

#[test]
fn untracked_binary_adds_nothing() {
    let mut scan = empty_scan();
    scan.untracked.push("blob.bin".to_string());
    let news: Vec<Option<Vec<u8>>> = Vec::new();
    let disk: Vec<Option<DiskFile>> = vec![Some(DiskFile { size: 3, bytes: vec![1, 0, 2] })];
    let summary = finish_status_summary(&scan, &news, &disk);
    assert_eq!(summary.lines_added, 0);
}

#[test]
fn scan_status_fails_on_missing_repository() {
    let result = scan_status("/nonexistent/path/for/sure", &None, &None);
    assert!(matches!(result, Err(GitError::RepositoryOpen)));
}

#[test]
fn diff_summary_fails_on_missing_repository() {
    let result = get_diff_summary("/nonexistent/path/for/sure", None, None);
    assert!(matches!(result, Err(GitError::RepositoryOpen)));
}

#[test]
fn error_messages() {
    assert_eq!(GitError::RepositoryOpen.message(), "failed to open repository");
    assert_eq!(GitError::ReferenceResolution.message(), "failed to resolve reference");
    assert_eq!(GitError::ObjectRead.message(), "failed to read object");
    assert_eq!(GitError::StatusEnumeration.message(), "failed to enumerate status");
    assert_eq!(GitError::AncestryWalk.message(), "failed to walk ancestry");
}
