//! Finding the directories that look like projects.

use vstd::prelude::*;
use crate::text::{
    lemma_text_before_asymmetric, lowercase, same_text, text_before, text_less, to_lowercase,
};
use vstd::seq_lib::{to_multiset_build, to_multiset_insert};

verus! {

/// A directory that may be a project.
#[derive(Debug)]
pub struct DiscoveredDir {
    pub name: String,
    pub path: String,
}

/// The directories below the home directory whose subdirectories are looked at.
pub open spec fn root_names() -> Seq<Seq<char>> {
    seq![
        "dev"@,
        "Developer"@,
        "projects"@,
        "src"@,
        "code"@,
        "workspace"@,
        "repos"@,
        "Desktop"@,
        "Documents"@,
    ]
}

/// The directories below the home directory whose subdirectories are looked at.
pub fn project_roots() -> (roots: Vec<String>)
    ensures
        roots@.map_values(|r: String| r@) == root_names(),
{
    let mut roots: Vec<String> = Vec::new();
    roots.push("dev".to_owned());
    roots.push("Developer".to_owned());
    roots.push("projects".to_owned());
    roots.push("src".to_owned());
    roots.push("code".to_owned());
    roots.push("workspace".to_owned());
    roots.push("repos".to_owned());
    roots.push("Desktop".to_owned());
    roots.push("Documents".to_owned());
    assert(roots@.map_values(|r: String| r@) =~= root_names());
    roots
}

/// Whether a directory of this name may be a project: hidden directories and the
/// directories of build output and of installed packages are not.
pub open spec fn project_name(name: Seq<char>) -> bool {
    &&& !(name.len() > 0 && name[0] == '.')
    &&& name != "node_modules"@
    &&& name != "target"@
}

/// Whether a directory of this name may be a project.
pub fn is_project_name(name: &str) -> (ok: bool)
    ensures
        ok == project_name(name@),
{
    if name.unicode_len() > 0 && name.get_char(0) == '.' {
        return false;
    }
    !same_text(name, "node_modules") && !same_text(name, "target")
}

/// Whether `a` is listed before `b`: by name, without regard to case.
pub open spec fn dir_before(a: DiscoveredDir, b: DiscoveredDir) -> bool {
    text_before(lowercase(a.name@), lowercase(b.name@))
}

/// No directory of `dirs` is listed before the one in front of it.
pub open spec fn dirs_in_order(dirs: Seq<DiscoveredDir>) -> bool {
    forall|i: int| 0 <= i < dirs.len() - 1 ==> !dir_before(#[trigger] dirs[i + 1], dirs[i])
}

/// `dirs` without each directory whose path is that of the one in front of it.
pub open spec fn without_repeats(dirs: Seq<DiscoveredDir>) -> Seq<DiscoveredDir>
    decreases dirs.len(),
{
    if dirs.len() == 0 {
        dirs
    } else {
        let front = without_repeats(dirs.drop_last());
        if front.len() > 0 && front.last().path@ == dirs.last().path@ {
            front
        } else {
            front.push(dirs.last())
        }
    }
}

/// Puts directories in the order of their names, without regard to case. The result
/// holds the same directories.
pub fn sort_directories(dirs: Vec<DiscoveredDir>) -> (sorted: Vec<DiscoveredDir>)
    ensures
        sorted@.to_multiset() == dirs@.to_multiset(),
        dirs_in_order(sorted@),
{
    let mut rest = dirs;
    let mut sorted: Vec<DiscoveredDir> = Vec::new();
    assert(sorted@.to_multiset().add(rest@.to_multiset()) =~= dirs@.to_multiset()) by {
        broadcast use vstd::seq_lib::group_to_multiset_ensures;
    }
    while rest.len() > 0
        invariant
            sorted@.to_multiset().add(rest@.to_multiset()) == dirs@.to_multiset(),
            dirs_in_order(sorted@),
        decreases rest@.len(),
    {
        let ghost rest_before = rest@;
        let ghost sorted_before = sorted@;
        let dir = rest.pop().unwrap();
        let key = to_lowercase(dir.name.as_str());
        let mut p: usize = 0;
        while p < sorted.len() && text_less(to_lowercase(sorted[p].name.as_str()).as_str(), key.as_str())
            invariant
                p <= sorted@.len(),
                key@ == lowercase(dir.name@),
                forall|k: int| 0 <= k < p ==> dir_before(#[trigger] sorted@[k], dir),
            decreases sorted@.len() - p,
        {
            p += 1;
        }
        sorted.insert(p, dir);
        proof {
            assert(rest_before =~= rest@.push(dir));
            to_multiset_build(rest@, dir);
            to_multiset_insert(sorted_before, p as int, dir);
            assert(sorted@.to_multiset().add(rest@.to_multiset()) =~= sorted_before.to_multiset().add(
                rest_before.to_multiset(),
            ));
            assert forall|i: int| 0 <= i < sorted@.len() - 1 implies !dir_before(
                #[trigger] sorted@[i + 1],
                sorted@[i],
            ) by {
                if i + 1 < p {
                    assert(!dir_before(sorted_before[i + 1], sorted_before[i]));
                } else if i + 1 == p {
                    assert(dir_before(sorted_before[i], dir));
                    lemma_text_before_asymmetric(
                        lowercase(sorted_before[i].name@),
                        lowercase(dir.name@),
                    );
                } else if i == p {
                    assert(sorted@[i + 1] == sorted_before[i]);
                } else {
                    assert(sorted@[i + 1] == sorted_before[i]);
                    assert(sorted@[i] == sorted_before[i - 1]);
                    assert(!dir_before(sorted_before[(i - 1) + 1], sorted_before[i - 1]));
                }
            }
        }
    }
    assert(rest@.to_multiset() =~= vstd::multiset::Multiset::<DiscoveredDir>::empty()) by {
        broadcast use vstd::seq_lib::group_to_multiset_ensures;
        assert(rest@ =~= Seq::<DiscoveredDir>::empty());
    }
    assert(sorted@.to_multiset().add(rest@.to_multiset()) =~= sorted@.to_multiset());
    sorted
}

/// The same directories, last first.
fn reversed(dirs: Vec<DiscoveredDir>) -> (out: Vec<DiscoveredDir>)
    ensures
        out@ == dirs@.reverse(),
{
    let mut rest = dirs;
    let mut out: Vec<DiscoveredDir> = Vec::new();
    while rest.len() > 0
        invariant
            rest@.len() <= dirs@.len(),
            rest@ == dirs@.take(rest@.len() as int),
            out@.len() + rest@.len() == dirs@.len(),
            forall|k: int| 0 <= k < out@.len() ==> out@[k] == dirs@[dirs@.len() - 1 - k],
        decreases rest@.len(),
    {
        let ghost n = rest@.len();
        let dir = rest.pop().unwrap();
        out.push(dir);
        assert(rest@ =~= dirs@.take(n - 1));
    }
    assert(out@ =~= dirs@.reverse());
    out
}

/// Drops each directory whose path is that of the one in front of it.
pub fn dedup_paths(dirs: Vec<DiscoveredDir>) -> (out: Vec<DiscoveredDir>)
    ensures
        out@ == without_repeats(dirs@),
{
    let ghost all = dirs@;
    let mut rest = reversed(dirs);
    let mut out: Vec<DiscoveredDir> = Vec::new();
    assert(all.take(0) =~= Seq::<DiscoveredDir>::empty());
    while rest.len() > 0
        invariant
            rest@.len() <= all.len(),
            forall|k: int| 0 <= k < rest@.len() ==> rest@[k] == all[all.len() - 1 - k],
            out@ == without_repeats(all.take(all.len() - rest@.len())),
        decreases rest@.len(),
    {
        let ghost done = all.len() - rest@.len();
        let dir = rest.pop().unwrap();
        proof {
            let upto = all.take(done + 1);
            assert(upto.drop_last() =~= all.take(done));
            assert(upto.last() == dir);
        }
        let n = out.len();
        if n > 0 && same_text(out[n - 1].path.as_str(), dir.path.as_str()) {
        } else {
            out.push(dir);
        }
    }
    assert(all.take(all.len() as int) =~= all);
    out
}

/// The list of project directories that is shown, made of the directories that were
/// found: in the order of their names, without repeated paths.
pub fn list_project_directories(found: Vec<DiscoveredDir>) -> (listed: Vec<DiscoveredDir>)
    ensures
        exists|sorted: Seq<DiscoveredDir>|
            sorted.to_multiset() == found@.to_multiset() && dirs_in_order(sorted) && listed@
                == #[trigger] without_repeats(sorted),
{
    let sorted = sort_directories(found);
    dedup_paths(sorted)
}

} // verus!
