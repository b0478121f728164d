use central::commands::files::diff::{
    append_diff_line, collect_diff_output, maybe_add_hunk, record_patch_line, PatchLine,
};
use central::commands::files::discover::{
    dedup_paths, is_project_name, list_project_directories, project_roots, sort_directories,
    DiscoveredDir,
};
use central::commands::files::git_helpers::{collect_git_statuses, StatusEntry, StatusFlags};
use central::commands::files::tree::{build_entry, sort_entries, too_deep, MAX_DEPTH};
use central::commands::files::types::{DiffHunk, FileDiff, FileTreeEntry};

fn file(name: &str) -> FileTreeEntry {
    FileTreeEntry {
        name: name.to_string(),
        path: name.to_string(),
        is_dir: false,
        children: vec![],
        git_status: None,
    }
}

fn dir(name: &str) -> FileTreeEntry {
    FileTreeEntry { is_dir: true, ..file(name) }
}

#[test]
fn entries_sort_directories_first_then_by_name() {
    let sorted = sort_entries(vec![
        file("b_file.txt"),
        dir("z_dir"),
        file("a_file.txt"),
        dir("a_dir"),
        file("B_upper.txt"),
        file("a"),
    ]);
    let names: Vec<&str> = sorted.iter().map(|e| e.name.as_str()).collect();
    assert_eq!(names, vec!["a_dir", "z_dir", "B_upper.txt", "a", "a_file.txt", "b_file.txt"]);
    assert!(sorted[0].is_dir);
    assert!(sort_entries(vec![]).is_empty());
}

#[test]
fn sorting_agrees_with_the_standard_sort() {
    let names = ["é", "e", "z", "", "ab", "a", "Z", "日本", "~", "a b", "ab"];
    let sorted = sort_entries(names.iter().map(|n| file(n)).collect());
    let got: Vec<&str> = sorted.iter().map(|e| e.name.as_str()).collect();
    let mut want: Vec<&str> = names.to_vec();
    want.sort();
    assert_eq!(got, want);
}

#[test]
fn depth_limit_is_twenty() {
    assert_eq!(MAX_DEPTH, 20);
    assert!(!too_deep(0));
    assert!(!too_deep(20));
    assert!(too_deep(21));
}

#[test]
fn entry_status_comes_from_table_or_children() {
    let statuses = collect_git_statuses(&vec![StatusEntry {
        path: Some("src/a.rs".to_string()),
        status: StatusFlags { wt_modified: true, ..StatusFlags::default() },
    }]);
    let a = build_entry("a.rs".to_string(), "src/a.rs".to_string(), false, vec![], &statuses);
    assert_eq!(a.git_status, Some("modified".to_string()));
    assert_eq!(a.name, "a.rs");
    assert_eq!(a.path, "src/a.rs");
    assert!(!a.is_dir);
    let b = build_entry("b.rs".to_string(), "src/b.rs".to_string(), false, vec![], &statuses);
    assert_eq!(b.git_status, None);
    let src = build_entry("src".to_string(), "src".to_string(), true, vec![a, b], &statuses);
    assert_eq!(src.git_status, Some("modified".to_string()));
    assert_eq!(src.children.len(), 2);
    let empty = build_entry("src/a.rs".to_string(), "src/a.rs".to_string(), true, vec![], &statuses);
    assert_eq!(empty.git_status, None);
}

#[test]
fn hunk_is_added_once_per_header() {
    let mut fd = FileDiff { path: "a.rs".to_string(), hunks: vec![] };
    maybe_add_hunk(&mut fd, b"  @@ -1 +1 @@ \n");
    assert_eq!(fd.hunks.len(), 1);
    assert_eq!(fd.hunks[0].header, "@@ -1 +1 @@");
    assert!(fd.hunks[0].lines.is_empty());
    maybe_add_hunk(&mut fd, b"@@ -1 +1 @@");
    assert_eq!(fd.hunks.len(), 1);
    maybe_add_hunk(&mut fd, b"@@ -9 +9 @@");
    maybe_add_hunk(&mut fd, b"@@ -1 +1 @@");
    let headers: Vec<&str> = fd.hunks.iter().map(|h| h.header.as_str()).collect();
    assert_eq!(headers, vec!["@@ -1 +1 @@", "@@ -9 +9 @@", "@@ -1 +1 @@"]);
    assert_eq!(fd.path, "a.rs");
}

#[test]
fn diff_line_is_marked_by_its_origin() {
    let mut hunk = DiffHunk { header: "@@".to_string(), lines: vec![] };
    append_diff_line(&mut hunk, '+', b"new\n", None, Some(1));
    append_diff_line(&mut hunk, '-', b"old\n", Some(1), None);
    append_diff_line(&mut hunk, ' ', b"same\n", Some(2), Some(2));
    append_diff_line(&mut hunk, 'F', b"caf\xc3\xa9 \xff", None, None);
    let lines: Vec<(&str, &str, Option<u32>, Option<u32>)> = hunk
        .lines
        .iter()
        .map(|l| (l.origin.as_str(), l.content.as_str(), l.old_lineno, l.new_lineno))
        .collect();
    assert_eq!(
        lines,
        vec![
            ("add", "new\n", None, Some(1)),
            ("del", "old\n", Some(1), None),
            ("ctx", "same\n", Some(2), Some(2)),
            ("ctx", "café \u{fffd}", None, None),
        ]
    );
    assert_eq!(hunk.header, "@@");
}

fn patch(path: &str, header: Option<&str>, origin: char, content: &str) -> PatchLine {
    PatchLine {
        path: path.to_string(),
        hunk_header: header.map(|h| h.as_bytes().to_vec()),
        origin,
        content: content.as_bytes().to_vec(),
        old_lineno: None,
        new_lineno: None,
    }
}

#[test]
fn patch_is_collected_per_file() {
    let lines = vec![
        patch("new.txt", None, 'F', "diff --git a/new.txt b/new.txt\n"),
        patch("new.txt", Some("@@ -0,0 +1 @@\n"), 'H', "@@ -0,0 +1 @@\n"),
        patch("new.txt", Some("@@ -0,0 +1 @@\n"), '+', "hello\n"),
        patch("b.rs", Some("@@ -1 +1 @@\n"), '-', "x\n"),
        patch("new.txt", Some("@@ -5 +5 @@\n"), ' ', "ctx\n"),
    ];
    let diffs = collect_diff_output(&lines);
    assert_eq!(diffs.len(), 2);
    assert_eq!(diffs[0].path, "new.txt");
    // The file header arrives before any hunk and is recorded nowhere.
    assert_eq!(diffs[0].hunks.len(), 2);
    assert_eq!(diffs[0].hunks[0].header, "@@ -0,0 +1 @@");
    let first: Vec<(&str, &str)> = diffs[0].hunks[0]
        .lines
        .iter()
        .map(|l| (l.origin.as_str(), l.content.as_str()))
        .collect();
    assert_eq!(first, vec![("ctx", "@@ -0,0 +1 @@\n"), ("add", "hello\n")]);
    assert_eq!(diffs[0].hunks[1].lines.len(), 1);
    assert_eq!(diffs[1].path, "b.rs");
    assert_eq!(diffs[1].hunks[0].lines[0].origin, "del");
    assert!(collect_diff_output(&vec![]).is_empty());
}

#[test]
fn patch_line_goes_to_an_existing_record() {
    let mut result = vec![FileDiff {
        path: "a.rs".to_string(),
        hunks: vec![DiffHunk { header: "@@ h @@".to_string(), lines: vec![] }],
    }];
    record_patch_line(&mut result, &patch("a.rs", None, '+', "line\n"));
    assert_eq!(result.len(), 1);
    assert_eq!(result[0].hunks.len(), 1);
    assert_eq!(result[0].hunks[0].lines.len(), 1);
    assert_eq!(result[0].hunks[0].lines[0].content, "line\n");
}

fn found(name: &str, path: &str) -> DiscoveredDir {
    DiscoveredDir { name: name.to_string(), path: path.to_string() }
}

#[test]
fn project_names_leave_out_hidden_and_build_directories() {
    assert!(is_project_name("central"));
    assert!(is_project_name("a.b"));
    assert!(is_project_name(""));
    assert!(is_project_name("Target"));
    assert!(!is_project_name(".git"));
    assert!(!is_project_name("."));
    assert!(!is_project_name("node_modules"));
    assert!(!is_project_name("target"));
}

#[test]
fn project_roots_are_the_usual_places() {
    assert_eq!(
        project_roots(),
        vec![
            "dev",
            "Developer",
            "projects",
            "src",
            "code",
            "workspace",
            "repos",
            "Desktop",
            "Documents"
        ]
    );
}

#[test]
fn directories_are_listed_by_name_without_regard_to_case() {
    let listed = list_project_directories(vec![
        found("zeta", "/h/dev/zeta"),
        found("Alpha", "/h/dev/Alpha"),
        found("beta", "/h/src/beta"),
        found("alpha", "/h/src/alpha"),
        found("Beta", "/h/src/beta"),
    ]);
    let got: Vec<(&str, &str)> =
        listed.iter().map(|d| (d.name.as_str(), d.path.as_str())).collect();
    assert_eq!(
        got,
        vec![
            ("Alpha", "/h/dev/Alpha"),
            ("alpha", "/h/src/alpha"),
            ("beta", "/h/src/beta"),
            ("zeta", "/h/dev/zeta")
        ]
    );
}

#[test]
fn sort_keeps_the_order_of_equal_names() {
    let sorted = sort_directories(vec![found("B", "1"), found("a", "2"), found("b", "3"), found("A", "4")]);
    let got: Vec<&str> = sorted.iter().map(|d| d.path.as_str()).collect();
    assert_eq!(got, vec!["2", "4", "1", "3"]);
}

#[test]
fn only_neighbours_with_one_path_count_as_repeats() {
    let out = dedup_paths(vec![
        found("a", "p"),
        found("b", "p"),
        found("c", "q"),
        found("d", "p"),
        found("e", "p"),
        found("f", "p"),
    ]);
    let got: Vec<&str> = out.iter().map(|d| d.name.as_str()).collect();
    assert_eq!(got, vec!["a", "c", "d"]);
    assert!(dedup_paths(vec![]).is_empty());
}

#[test]
fn list_project_directories_returns_vec() {
    let result = list_project_directories(vec![
        found("central", "/home/u/dev/central"),
        found("notes", "/home/u/Documents/notes"),
    ]);
    // All entries should have non-empty name and path
    for entry in &result {
        assert!(!entry.name.is_empty());
        assert!(!entry.path.is_empty());
    }
    assert_eq!(result.len(), 2);
    assert!(list_project_directories(vec![]).is_empty());
}
