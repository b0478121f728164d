use central::commands::files::diff::find_or_create_file_diff;
use central::commands::files::tree::{infer_dir_status, should_skip};
use central::commands::files::types::{DiffHunk, FileDiff, FileTreeEntry};

#[test]
fn find_or_create_file_diff_creates_new() {
    let mut result: Vec<FileDiff> = vec![];
    let fd = find_or_create_file_diff(&mut result, "src/main.rs");

    assert_eq!(fd.path, "src/main.rs");
    assert!(fd.hunks.is_empty());
    assert_eq!(result.len(), 1);
}

#[test]
fn find_or_create_file_diff_returns_existing() {
    let mut result = vec![FileDiff {
        path: "src/main.rs".to_string(),
        hunks: vec![DiffHunk {
            header: "@@ -1 +1 @@".to_string(),
            lines: vec![],
        }],
    }];

    let fd = find_or_create_file_diff(&mut result, "src/main.rs");

    assert_eq!(fd.hunks.len(), 1);
    assert_eq!(result.len(), 1);
}

#[test]
fn find_or_create_tracks_multiple_files() {
    let mut result: Vec<FileDiff> = vec![];

    find_or_create_file_diff(&mut result, "a.rs");
    find_or_create_file_diff(&mut result, "b.rs");
    find_or_create_file_diff(&mut result, "a.rs");

    assert_eq!(result.len(), 2);
}

#[test]
fn should_skip_git_directory() {
    assert!(should_skip(".git"));
}

#[test]
fn should_skip_node_modules() {
    assert!(should_skip("node_modules"));
}

#[test]
fn should_skip_target() {
    assert!(should_skip("target"));
}

#[test]
fn should_skip_ds_store() {
    assert!(should_skip(".DS_Store"));
}

#[test]
fn should_skip_pycache() {
    assert!(should_skip("__pycache__"));
}

#[test]
fn should_skip_next() {
    assert!(should_skip(".next"));
}

#[test]
fn should_skip_dist() {
    assert!(should_skip("dist"));
}

#[test]
fn should_skip_turbo() {
    assert!(should_skip(".turbo"));
}

#[test]
fn should_not_skip_src() {
    assert!(!should_skip("src"));
}

#[test]
fn should_not_skip_regular_files() {
    assert!(!should_skip("main.rs"));
    assert!(!should_skip("package.json"));
    assert!(!should_skip("README.md"));
}

#[test]
fn infer_dir_status_modified_takes_priority() {
    let children = vec![
        FileTreeEntry {
            name: "a.rs".to_string(),
            path: "a.rs".to_string(),
            is_dir: false,
            children: vec![],
            git_status: Some("modified".to_string()),
        },
        FileTreeEntry {
            name: "b.rs".to_string(),
            path: "b.rs".to_string(),
            is_dir: false,
            children: vec![],
            git_status: Some("added".to_string()),
        },
    ];

    assert_eq!(infer_dir_status(&children), Some("modified".to_string()));
}

#[test]
fn infer_dir_status_added_when_no_modified() {
    let children = vec![FileTreeEntry {
        name: "new.rs".to_string(),
        path: "new.rs".to_string(),
        is_dir: false,
        children: vec![],
        git_status: Some("added".to_string()),
    }];

    assert_eq!(infer_dir_status(&children), Some("added".to_string()));
}

#[test]
fn infer_dir_status_deleted_when_no_modified_or_added() {
    let children = vec![FileTreeEntry {
        name: "old.rs".to_string(),
        path: "old.rs".to_string(),
        is_dir: false,
        children: vec![],
        git_status: Some("deleted".to_string()),
    }];

    assert_eq!(infer_dir_status(&children), Some("deleted".to_string()));
}

#[test]
fn infer_dir_status_none_for_clean_children() {
    let children = vec![FileTreeEntry {
        name: "clean.rs".to_string(),
        path: "clean.rs".to_string(),
        is_dir: false,
        children: vec![],
        git_status: None,
    }];

    assert_eq!(infer_dir_status(&children), None);
}

#[test]
fn infer_dir_status_none_for_empty() {
    assert_eq!(infer_dir_status(&[]), None);
}
