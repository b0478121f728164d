//! The records that describe a project's files to the user interface.

use vstd::prelude::*;

verus! {

/// A file or directory of the project tree.
#[derive(Debug)]
pub struct FileTreeEntry {
    pub name: String,
    pub path: String,
    pub is_dir: bool,
    pub children: Vec<FileTreeEntry>,
    pub git_status: Option<String>,
}

/// The state of a working copy.
#[derive(Debug, Clone)]
pub struct GitStatusInfo {
    pub branch: String,
    pub ahead: usize,
    pub behind: usize,
    pub is_repo: bool,
    pub changed_files: Vec<ChangedFile>,
}

/// A file that differs from what is committed.
#[derive(Debug, Clone)]
pub struct ChangedFile {
    pub path: String,
    pub status: String,
}

/// The differences of one file.
#[derive(Debug, Clone)]
pub struct FileDiff {
    pub path: String,
    pub hunks: Vec<DiffHunk>,
}

/// One hunk of a file's differences.
#[derive(Debug, Clone)]
pub struct DiffHunk {
    pub header: String,
    pub lines: Vec<DiffLine>,
}

/// One line of a hunk.
#[derive(Debug, Clone)]
pub struct DiffLine {
    pub content: String,
    pub origin: String,
    pub old_lineno: Option<u32>,
    pub new_lineno: Option<u32>,
}

} // verus!
