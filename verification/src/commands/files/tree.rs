//! Rules of the project tree: which names are left out, and which status a directory
//! shows for what it holds.

use vstd::prelude::*;
use crate::commands::files::types::FileTreeEntry;
use crate::registry::Registry;
use crate::text::{lemma_text_before_asymmetric, same_text, text_before, text_less, text_of};
use vstd::seq_lib::{to_multiset_build, to_multiset_insert};

verus! {

/// The names that never appear in the tree.
pub open spec fn skipped_name(name: Seq<char>) -> bool {
    ||| name == ".git"@
    ||| name == "node_modules"@
    ||| name == "target"@
    ||| name == ".DS_Store"@
    ||| name == "__pycache__"@
    ||| name == ".next"@
    ||| name == "dist"@
    ||| name == ".turbo"@
}

/// Whether an entry of this name is left out of the tree.
pub fn should_skip(name: &str) -> (skip: bool)
    ensures
        skip == skipped_name(name@),
{
    same_text(name, ".git") || same_text(name, "node_modules") || same_text(name, "target")
        || same_text(name, ".DS_Store") || same_text(name, "__pycache__") || same_text(
        name,
        ".next",
    ) || same_text(name, "dist") || same_text(name, ".turbo")
}

/// The status of an entry, as characters.
pub open spec fn status_of(entry: FileTreeEntry) -> Option<Seq<char>> {
    match entry.git_status {
        Some(s) => Some(s@),
        None => None,
    }
}

/// Whether some entry of `children` has the status `status`.
pub open spec fn any_with_status(children: Seq<FileTreeEntry>, status: Seq<char>) -> bool {
    exists|i: int| 0 <= i < children.len() && status_of(#[trigger] children[i]) == Some(status)
}

/// The status that a directory shows: that of a modified child first, else of an added
/// one, else of a deleted one; none where it holds no such child.
pub open spec fn inferred_status(children: Seq<FileTreeEntry>) -> Option<Seq<char>> {
    if any_with_status(children, "modified"@) {
        Some("modified"@)
    } else if any_with_status(children, "added"@) {
        Some("added"@)
    } else if any_with_status(children, "deleted"@) {
        Some("deleted"@)
    } else {
        None
    }
}

/// Whether some entry of `children` has the status `status`.
fn has_status(children: &[FileTreeEntry], status: &str) -> (found: bool)
    ensures
        found == any_with_status(children@, status@),
{
    let mut i: usize = 0;
    while i < children.len()
        invariant
            i <= children@.len(),
            forall|k: int| 0 <= k < i ==> status_of(#[trigger] children@[k]) != Some(status@),
        decreases children@.len() - i,
    {
        match &children[i].git_status {
            Some(s) => {
                if same_text(s.as_str(), status) {
                    return true;
                }
            },
            None => {},
        }
        i += 1;
    }
    false
}

/// The status that a directory shows for the entries that it holds.
pub fn infer_dir_status(children: &[FileTreeEntry]) -> (status: Option<String>)
    ensures
        text_of(status) == inferred_status(children@),
{
    if has_status(children, "modified") {
        Some("modified".to_string())
    } else if has_status(children, "added") {
        Some("added".to_string())
    } else if has_status(children, "deleted") {
        Some("deleted".to_string())
    } else {
        None
    }
}

/// How deep the tree is followed: directories below this depth show no children.
pub const MAX_DEPTH: usize = 20;

/// Whether a directory at `depth` is too deep for its children to be listed.
pub fn too_deep(depth: usize) -> (deep: bool)
    ensures
        deep == (depth > MAX_DEPTH),
{
    depth > MAX_DEPTH
}

/// The entry for a file or directory. A file shows the status that the table holds for
/// its path; a directory shows the status inferred from its children.
pub fn build_entry(
    name: String,
    path: String,
    is_dir: bool,
    children: Vec<FileTreeEntry>,
    statuses: &Registry<String>,
) -> (entry: FileTreeEntry)
    ensures
        entry.name == name,
        entry.path == path,
        entry.is_dir == is_dir,
        entry.children == children,
        status_of(entry) == if is_dir {
            inferred_status(children@)
        } else if statuses@.contains_key(path@) {
            Some(statuses@[path@]@)
        } else {
            None
        },
{
    let git_status = if is_dir {
        infer_dir_status(children.as_slice())
    } else {
        match statuses.get(path.as_str()) {
            Some(label) => Some(label.clone()),
            None => None,
        }
    };
    FileTreeEntry { name, path, is_dir, children, git_status }
}

/// Whether `a` is listed before `b`: directories before files, and among directories
/// and among files by name.
pub open spec fn entry_before(a: FileTreeEntry, b: FileTreeEntry) -> bool {
    if a.is_dir != b.is_dir {
        a.is_dir
    } else {
        text_before(a.name@, b.name@)
    }
}

/// No entry of `entries` is listed before the one in front of it.
pub open spec fn in_order(entries: Seq<FileTreeEntry>) -> bool {
    forall|i: int|
        0 <= i < entries.len() - 1 ==> !entry_before(#[trigger] entries[i + 1], entries[i])
}

/// Whether `a` is listed before `b`.
fn comes_before(a: &FileTreeEntry, b: &FileTreeEntry) -> (before: bool)
    ensures
        before == entry_before(*a, *b),
{
    if a.is_dir != b.is_dir {
        a.is_dir
    } else {
        text_less(a.name.as_str(), b.name.as_str())
    }
}

/// Puts the entries of a directory in the order in which they are listed. The result
/// holds the same entries.
pub fn sort_entries(entries: Vec<FileTreeEntry>) -> (sorted: Vec<FileTreeEntry>)
    ensures
        sorted@.to_multiset() == entries@.to_multiset(),
        in_order(sorted@),
{
    let mut rest = entries;
    let mut sorted: Vec<FileTreeEntry> = Vec::new();
    assert(sorted@.to_multiset().add(rest@.to_multiset()) =~= entries@.to_multiset()) by {
        broadcast use vstd::seq_lib::group_to_multiset_ensures;
    }
    while rest.len() > 0
        invariant
            sorted@.to_multiset().add(rest@.to_multiset()) == entries@.to_multiset(),
            in_order(sorted@),
        decreases rest@.len(),
    {
        let ghost rest_before = rest@;
        let ghost sorted_before = sorted@;
        let entry = rest.pop().unwrap();
        let mut p: usize = 0;
        while p < sorted.len() && comes_before(&sorted[p], &entry)
            invariant
                p <= sorted@.len(),
                forall|k: int| 0 <= k < p ==> entry_before(#[trigger] sorted@[k], entry),
            decreases sorted@.len() - p,
        {
            p += 1;
        }
        sorted.insert(p, entry);
        proof {
            assert(rest_before =~= rest@.push(entry));
            to_multiset_build(rest@, entry);
            to_multiset_insert(sorted_before, p as int, entry);
            assert(sorted@.to_multiset().add(rest@.to_multiset()) =~= sorted_before.to_multiset().add(
                rest_before.to_multiset(),
            ));
            assert forall|i: int| 0 <= i < sorted@.len() - 1 implies !entry_before(
                #[trigger] sorted@[i + 1],
                sorted@[i],
            ) by {
                if i + 1 < p {
                    assert(!entry_before(sorted_before[i + 1], sorted_before[i]));
                } else if i + 1 == p {
                    assert(entry_before(sorted_before[i], entry));
                    if sorted_before[i].is_dir == entry.is_dir {
                        lemma_text_before_asymmetric(sorted_before[i].name@, entry.name@);
                    }
                } else if i == p {
                    assert(sorted@[i + 1] == sorted_before[i]);
                } else {
                    assert(sorted@[i + 1] == sorted_before[i]);
                    assert(sorted@[i] == sorted_before[i - 1]);
                    assert(!entry_before(sorted_before[(i - 1) + 1], sorted_before[i - 1]));
                }
            }
        }
    }
    assert(rest@.to_multiset() =~= vstd::multiset::Multiset::<FileTreeEntry>::empty()) by {
        broadcast use vstd::seq_lib::group_to_multiset_ensures;
        assert(rest@ =~= Seq::<FileTreeEntry>::empty());
    }
    assert(sorted@.to_multiset().add(rest@.to_multiset()) =~= sorted@.to_multiset());
    sorted
}

} // verus!
