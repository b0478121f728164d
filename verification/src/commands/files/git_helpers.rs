//! What the version-control status of a file is called, and how the statuses of a
//! working copy are collected.

use vstd::prelude::*;
use crate::commands::files::types::{ChangedFile, GitStatusInfo};
use crate::registry::Registry;

verus! {

/// The status flags of one file that the labels depend on, and `ignored`, which they do
/// not.
#[derive(Debug, Clone, Copy, PartialEq, Eq, Structural)]
pub struct StatusFlags {
    pub index_new: bool,
    pub index_modified: bool,
    pub index_deleted: bool,
    pub index_renamed: bool,
    pub wt_new: bool,
    pub wt_modified: bool,
    pub wt_deleted: bool,
    pub wt_renamed: bool,
    pub conflicted: bool,
    pub ignored: bool,
}

impl StatusFlags {
    /// No flag is set.
    pub open spec fn none() -> StatusFlags {
        StatusFlags {
            index_new: false,
            index_modified: false,
            index_deleted: false,
            index_renamed: false,
            wt_new: false,
            wt_modified: false,
            wt_deleted: false,
            wt_renamed: false,
            conflicted: false,
            ignored: false,
        }
    }
}

impl Default for StatusFlags {
    fn default() -> (flags: StatusFlags)
        ensures
            flags == StatusFlags::none(),
    {
        StatusFlags {
            index_new: false,
            index_modified: false,
            index_deleted: false,
            index_renamed: false,
            wt_new: false,
            wt_modified: false,
            wt_deleted: false,
            wt_renamed: false,
            conflicted: false,
            ignored: false,
        }
    }
}

/// The label of a status: new before deleted before modified before renamed before
/// conflicted, in the working tree or in the index alike.
pub open spec fn label_of(status: StatusFlags) -> Seq<char> {
    if status.wt_new || status.index_new {
        "added"@
    } else if status.wt_deleted || status.index_deleted {
        "deleted"@
    } else if status.wt_modified || status.index_modified {
        "modified"@
    } else if status.wt_renamed || status.index_renamed {
        "renamed"@
    } else if status.conflicted {
        "conflicted"@
    } else {
        "unknown"@
    }
}

/// The label of a status.
pub fn status_to_label(status: StatusFlags) -> (label: String)
    ensures
        label@ == label_of(status),
{
    if status.wt_new || status.index_new {
        "added".to_string()
    } else if status.wt_deleted || status.index_deleted {
        "deleted".to_string()
    } else if status.wt_modified || status.index_modified {
        "modified".to_string()
    } else if status.wt_renamed || status.index_renamed {
        "renamed".to_string()
    } else if status.conflicted {
        "conflicted".to_string()
    } else {
        "unknown".to_string()
    }
}

/// One entry of a working copy's status list: the path, where it is valid Unicode, and
/// the flags.
#[derive(Debug, Clone)]
pub struct StatusEntry {
    pub path: Option<String>,
    pub status: StatusFlags,
}

/// The path of an entry as characters.
pub open spec fn entry_path(entry: StatusEntry) -> Option<Seq<char>> {
    match entry.path {
        Some(p) => Some(p@),
        None => None,
    }
}

/// The path under which an entry is filed: the empty one where it has none.
pub open spec fn filed_path(entry: StatusEntry) -> Seq<char> {
    match entry.path {
        Some(p) => p@,
        None => Seq::empty(),
    }
}

/// The labels by path that a status list gives. Of two entries with one path the later
/// one counts.
pub open spec fn labels_by_path(entries: Seq<StatusEntry>) -> Map<Seq<char>, Seq<char>>
    decreases entries.len(),
{
    if entries.len() == 0 {
        Map::empty()
    } else {
        labels_by_path(entries.drop_last()).insert(
            filed_path(entries.last()),
            label_of(entries.last().status),
        )
    }
}

/// The labels of a table, as characters.
pub open spec fn label_texts(table: Map<Seq<char>, String>) -> Map<Seq<char>, Seq<char>> {
    table.map_values(|label: String| label@)
}

/// Collects the label of every path of a status list.
pub fn collect_git_statuses(entries: &Vec<StatusEntry>) -> (table: Registry<String>)
    ensures
        label_texts(table@) == labels_by_path(entries@),
{
    let mut table: Registry<String> = Registry::new();
    let mut i: usize = 0;
    assert(label_texts(table@) =~= labels_by_path(entries@.take(0)));
    while i < entries.len()
        invariant
            i <= entries@.len(),
            label_texts(table@) == labels_by_path(entries@.take(i as int)),
        decreases entries@.len() - i,
    {
        let path = match &entries[i].path {
            Some(p) => p.clone(),
            None => String::new(),
        };
        let label = status_to_label(entries[i].status);
        let ghost before = table@;
        let ghost key = path@;
        table.replace(path, label);
        proof {
            let upto = entries@.take(i + 1);
            assert(upto.drop_last() =~= entries@.take(i as int));
            assert(upto.last() == entries@[i as int]);
            assert(table@ =~= before.insert(key, label));
            assert(label_texts(table@) =~= label_texts(before).insert(key, label@));
        }
        i += 1;
    }
    assert(entries@.take(entries@.len() as int) =~= entries@);
    table
}

/// The changed file that a status entry stands for; none where the entry has no path.
pub open spec fn changed_for(entry: StatusEntry) -> Seq<(Seq<char>, Seq<char>)> {
    match entry.path {
        Some(p) => seq![(p@, label_of(entry.status))],
        None => Seq::empty(),
    }
}

/// The changed files of a status list, in order.
pub open spec fn changed_files_of(entries: Seq<StatusEntry>) -> Seq<(Seq<char>, Seq<char>)>
    decreases entries.len(),
{
    if entries.len() == 0 {
        Seq::empty()
    } else {
        changed_files_of(entries.drop_last()) + changed_for(entries.last())
    }
}

/// Changed files as pairs of path and label.
pub open spec fn changed_pairs(files: Seq<ChangedFile>) -> Seq<(Seq<char>, Seq<char>)> {
    files.map_values(|f: ChangedFile| (f.path@, f.status@))
}

/// Lists the changed files of a status list: every entry that has a path, with its
/// label.
pub fn get_changed_files(entries: &Vec<StatusEntry>) -> (files: Vec<ChangedFile>)
    ensures
        changed_pairs(files@) == changed_files_of(entries@),
{
    let mut files: Vec<ChangedFile> = Vec::new();
    let mut i: usize = 0;
    assert(changed_pairs(files@) =~= changed_files_of(entries@.take(0)));
    while i < entries.len()
        invariant
            i <= entries@.len(),
            changed_pairs(files@) == changed_files_of(entries@.take(i as int)),
        decreases entries@.len() - i,
    {
        let ghost before = changed_pairs(files@);
        proof {
            let upto = entries@.take(i + 1);
            assert(upto.drop_last() =~= entries@.take(i as int));
            assert(upto.last() == entries@[i as int]);
        }
        match &entries[i].path {
            Some(p) => {
                files.push(ChangedFile { path: p.clone(), status: status_to_label(entries[i].status) });
                assert(changed_pairs(files@) =~= before + changed_for(entries@[i as int]));
            },
            None => {
                assert(before + changed_for(entries@[i as int]) =~= before);
            },
        }
        i += 1;
    }
    assert(entries@.take(entries@.len() as int) =~= entries@);
    files
}

/// The name of the branch that is checked out, given the short name of `HEAD` where it
/// has one.
pub fn get_branch_name(shorthand: Option<String>) -> (name: String)
    ensures
        name@ == match shorthand {
            Some(s) => s@,
            None => "HEAD (detached)"@,
        },
{
    match shorthand {
        Some(s) => s,
        None => "HEAD (detached)".to_string(),
    }
}

/// The name of the reference that a branch is compared with.
pub fn upstream_of(branch: &str) -> (name: String)
    ensures
        name@ == "origin/"@ + branch@,
{
    let mut name = "origin/".to_owned();
    name.append(branch);
    name
}

/// How far a branch is ahead of and behind what it is compared with: nothing where the
/// comparison could not be made.
pub fn get_ahead_behind(counted: Option<(usize, usize)>) -> (counts: (usize, usize))
    ensures
        counts == match counted {
            Some(c) => c,
            None => (0usize, 0usize),
        },
{
    match counted {
        Some(c) => c,
        None => (0, 0),
    }
}

/// The state of a working copy, put together from its parts.
pub fn get_git_status(branch: String, counts: (usize, usize), changed_files: Vec<ChangedFile>) -> (info:
    GitStatusInfo)
    ensures
        info.branch == branch,
        info.ahead == counts.0,
        info.behind == counts.1,
        info.is_repo,
        info.changed_files == changed_files,
{
    GitStatusInfo { branch, ahead: counts.0, behind: counts.1, is_repo: true, changed_files }
}

} // verus!
