//! Collecting a patch, line by line, into one record per file.

use vstd::prelude::*;
use crate::commands::files::types::{DiffHunk, DiffLine, FileDiff};
use crate::text::{lossy_text, lossy_utf8, same_text, trim, trimmed};

verus! {

/// `i` is the place of the first record of `diffs` for `path`.
pub open spec fn is_first_for(diffs: Seq<FileDiff>, path: Seq<char>, i: int) -> bool {
    &&& 0 <= i < diffs.len()
    &&& diffs[i].path@ == path
    &&& forall|k: int| 0 <= k < i ==> (#[trigger] diffs[k]).path@ != path
}

/// Whether `diffs` holds a record for `path`.
pub open spec fn has_path(diffs: Seq<FileDiff>, path: Seq<char>) -> bool {
    exists|i: int| 0 <= i < diffs.len() && (#[trigger] diffs[i]).path@ == path
}

/// The place of the first record for `path`.
fn position(diffs: &Vec<FileDiff>, path: &str) -> (found: Option<usize>)
    ensures
        match found {
            Some(i) => is_first_for(diffs@, path@, i as int),
            None => !has_path(diffs@, path@),
        },
{
    let mut i: usize = 0;
    while i < diffs.len()
        invariant
            i <= diffs@.len(),
            forall|k: int| 0 <= k < i ==> (#[trigger] diffs@[k]).path@ != path@,
        decreases diffs@.len() - i,
    {
        if same_text(diffs[i].path.as_str(), path) {
            return Some(i);
        }
        i += 1;
    }
    None
}

/// The record for `path`: the first one that `result` holds for it, or a new one
/// without hunks, appended to `result`, where it holds none.
pub fn find_or_create_file_diff<'a>(result: &'a mut Vec<FileDiff>, path: &str) -> (diff: &'a mut FileDiff)
    ensures
        diff.path@ == path@,
        has_path(old(result)@, path@) ==> exists|i: int|
            is_first_for(old(result)@, path@, i) && *diff == old(result)@[i] && final(result)@ == old(
                result,
            )@.update(i, *final(diff)),
        !has_path(old(result)@, path@) ==> diff.hunks@.len() == 0 && final(result)@ == old(
            result,
        )@.push(*final(diff)),
{
    match position(result, path) {
        Some(i) => {
            assert(has_path(result@, path@));
            &mut result[i]
        },
        None => {
            result.push(FileDiff { path: path.to_owned(), hunks: Vec::new() });
            let last = result.len() - 1;
            assert forall|d: FileDiff| #[trigger] result@.update(last as int, d) == old(result)@.push(d) by {
                assert(result@.update(last as int, d) =~= old(result)@.push(d));
            }
            &mut result[last]
        },
    }
}

/// A line of a hunk as plain values.
pub struct DiffLineView {
    pub content: Seq<char>,
    pub origin: Seq<char>,
    pub old_lineno: Option<u32>,
    pub new_lineno: Option<u32>,
}

/// A hunk as plain values.
pub struct DiffHunkView {
    pub header: Seq<char>,
    pub lines: Seq<DiffLineView>,
}

/// The differences of a file as plain values.
pub struct FileDiffView {
    pub path: Seq<char>,
    pub hunks: Seq<DiffHunkView>,
}

impl View for DiffLine {
    type V = DiffLineView;

    open spec fn view(&self) -> DiffLineView {
        DiffLineView {
            content: self.content@,
            origin: self.origin@,
            old_lineno: self.old_lineno,
            new_lineno: self.new_lineno,
        }
    }
}

impl View for DiffHunk {
    type V = DiffHunkView;

    open spec fn view(&self) -> DiffHunkView {
        DiffHunkView { header: self.header@, lines: self.lines@.map_values(|l: DiffLine| l@) }
    }
}

impl View for FileDiff {
    type V = FileDiffView;

    open spec fn view(&self) -> FileDiffView {
        FileDiffView { path: self.path@, hunks: self.hunks@.map_values(|h: DiffHunk| h@) }
    }
}

/// The text of a hunk header: its bytes read as text, without the white space around.
pub open spec fn header_text(header: Seq<u8>) -> Seq<char> {
    trimmed(lossy_utf8(header))
}

/// `file_diff` with a new, empty hunk under `header`, unless its last hunk has that
/// header.
pub open spec fn with_hunk(file_diff: FileDiffView, header: Seq<char>) -> FileDiffView {
    if file_diff.hunks.len() > 0 && file_diff.hunks.last().header == header {
        file_diff
    } else {
        FileDiffView {
            path: file_diff.path,
            hunks: file_diff.hunks.push(DiffHunkView { header, lines: Seq::empty() }),
        }
    }
}

/// How a line is marked: `add` for `+`, `del` for `-`, `ctx` for anything else.
pub open spec fn origin_label(origin: char) -> Seq<char> {
    if origin == '+' {
        "add"@
    } else if origin == '-' {
        "del"@
    } else {
        "ctx"@
    }
}

/// The line that a line of a patch is recorded as.
pub open spec fn line_for(
    origin: char,
    content: Seq<u8>,
    old_lineno: Option<u32>,
    new_lineno: Option<u32>,
) -> DiffLineView {
    DiffLineView {
        content: lossy_utf8(content),
        origin: origin_label(origin),
        old_lineno,
        new_lineno,
    }
}

/// `hunk` with `line` at its end.
pub open spec fn with_line(hunk: DiffHunkView, line: DiffLineView) -> DiffHunkView {
    DiffHunkView { header: hunk.header, lines: hunk.lines.push(line) }
}

/// Opens a hunk under the given header in `file_diff`, unless its last hunk is that one.
pub fn maybe_add_hunk(file_diff: &mut FileDiff, header: &[u8])
    ensures
        final(file_diff)@ == with_hunk(old(file_diff)@, header_text(header@)),
{
    let text = lossy_text(header);
    let header = trim(text.as_str());
    let n = file_diff.hunks.len();
    let already_exists = n > 0 && same_text(file_diff.hunks[n - 1].header.as_str(), header);
    proof {
        if n > 0 {
            assert(file_diff@.hunks.last() == file_diff.hunks@[n - 1]@);
        }
    }
    if !already_exists {
        let ghost before = file_diff@;
        file_diff.hunks.push(DiffHunk { header: header.to_owned(), lines: Vec::new() });
        proof {
            let added = DiffHunkView { header: header@, lines: Seq::<DiffLineView>::empty() };
            assert(file_diff.hunks@.last()@.lines =~= Seq::<DiffLineView>::empty());
            assert(file_diff@.hunks =~= before.hunks.push(added));
        }
    }
}

/// Records a line of a patch at the end of `hunk`.
pub fn append_diff_line(
    hunk: &mut DiffHunk,
    origin: char,
    content: &[u8],
    old_lineno: Option<u32>,
    new_lineno: Option<u32>,
)
    ensures
        final(hunk)@ == with_line(old(hunk)@, line_for(origin, content@, old_lineno, new_lineno)),
{
    let label = if origin == '+' {
        "add"
    } else if origin == '-' {
        "del"
    } else {
        "ctx"
    };
    let ghost before = hunk@;
    hunk.lines.push(
        DiffLine { content: lossy_text(content), origin: label.to_string(), old_lineno, new_lineno },
    );
    assert(hunk@.lines =~= before.lines.push(
        line_for(origin, content@, old_lineno, new_lineno),
    ));
}

/// One line of a patch as the differ hands it over: the file it belongs to, the header
/// of the hunk it stands in, where it stands in one, and the line itself.
#[derive(Debug, Clone)]
pub struct PatchLine {
    pub path: String,
    pub hunk_header: Option<Vec<u8>>,
    pub origin: char,
    pub content: Vec<u8>,
    pub old_lineno: Option<u32>,
    pub new_lineno: Option<u32>,
}

/// The records of a list, as plain values.
pub open spec fn diff_views(diffs: Seq<FileDiff>) -> Seq<FileDiffView> {
    diffs.map_values(|d: FileDiff| d@)
}

/// `i` is the place of the first record of `diffs` for `path`.
pub open spec fn is_place(diffs: Seq<FileDiffView>, path: Seq<char>, i: int) -> bool {
    &&& 0 <= i < diffs.len()
    &&& diffs[i].path == path
    &&& forall|k: int| 0 <= k < i ==> (#[trigger] diffs[k]).path != path
}

/// `diffs` with a record for `path`, and the place of the first such record: a record
/// without hunks is appended where there is none.
pub open spec fn located(diffs: Seq<FileDiffView>, path: Seq<char>) -> (Seq<FileDiffView>, int) {
    if exists|i: int| is_place(diffs, path, i) {
        (diffs, choose|i: int| is_place(diffs, path, i))
    } else {
        (diffs.push(FileDiffView { path, hunks: Seq::empty() }), diffs.len() as int)
    }
}

/// `file_diff` with `line` at the end of its last hunk; as it is where it has no hunk.
pub open spec fn with_last_line(file_diff: FileDiffView, line: DiffLineView) -> FileDiffView {
    if file_diff.hunks.len() > 0 {
        FileDiffView {
            path: file_diff.path,
            hunks: file_diff.hunks.update(
                file_diff.hunks.len() - 1,
                with_line(file_diff.hunks.last(), line),
            ),
        }
    } else {
        file_diff
    }
}

/// `file_diff` after a line of a patch: a hunk is opened where the line names one that
/// is not the last, and the line goes to the end of the last hunk.
pub open spec fn with_patch_line(
    file_diff: FileDiffView,
    header: Option<Seq<char>>,
    line: DiffLineView,
) -> FileDiffView {
    let opened = match header {
        Some(h) => with_hunk(file_diff, h),
        None => file_diff,
    };
    with_last_line(opened, line)
}

/// The records after a line of a patch has been taken in.
pub open spec fn recorded(
    diffs: Seq<FileDiffView>,
    path: Seq<char>,
    header: Option<Seq<char>>,
    line: DiffLineView,
) -> Seq<FileDiffView> {
    let (with_file, i) = located(diffs, path);
    with_file.update(i, with_patch_line(with_file[i], header, line))
}

/// The header of a patch line as text.
pub open spec fn header_of(line: PatchLine) -> Option<Seq<char>> {
    match line.hunk_header {
        Some(h) => Some(header_text(h@)),
        None => None,
    }
}

/// The records after every line of a patch has been taken in, in order.
pub open spec fn collected(lines: Seq<PatchLine>) -> Seq<FileDiffView>
    decreases lines.len(),
{
    if lines.len() == 0 {
        Seq::empty()
    } else {
        let line = lines.last();
        recorded(
            collected(lines.drop_last()),
            line.path@,
            header_of(line),
            line_for(line.origin, line.content@, line.old_lineno, line.new_lineno),
        )
    }
}

/// Takes one line of a patch into the records.
pub fn record_patch_line(result: &mut Vec<FileDiff>, line: &PatchLine)
    ensures
        diff_views(final(result)@) == recorded(
            diff_views(old(result)@),
            line.path@,
            header_of(*line),
            line_for(line.origin, line.content@, line.old_lineno, line.new_lineno),
        ),
{
    let ghost start = result@;
    let ghost before = diff_views(start);
    let ghost (with_file, place) = located(before, line.path@);
    proof {
        if has_path(start, line.path@) {
            let w = choose|i: int| 0 <= i < start.len() && (#[trigger] start[i]).path@ == line.path@;
            assert(before[w].path == line.path@);
            lemma_first_place(before, line.path@, w);
            assert forall|i: int| is_first_for(start, line.path@, i) implies i == place by {
                assert(is_place(before, line.path@, i)) by {
                    assert forall|k: int| 0 <= k < i implies (#[trigger] before[k]).path
                        != line.path@ by {
                        assert(start[k].path@ != line.path@);
                    }
                }
                lemma_place_is_unique(before, line.path@, i, place);
            }
            assert(with_file == before);
            assert forall|d: FileDiff| #[trigger]
                diff_views(start.update(place, d)) == with_file.update(place, d@) by {
                assert(diff_views(start.update(place, d)) =~= with_file.update(place, d@));
            }
        } else {
            assert forall|i: int| !is_place(before, line.path@, i) by {
                if is_place(before, line.path@, i) {
                    assert(start[i].path@ == line.path@);
                }
            }
            assert(place == start.len());
            assert forall|d: FileDiff| #[trigger]
                diff_views(start.push(d)) == before.push(d@) by {
                assert(diff_views(start.push(d)) =~= before.push(d@));
            }
        }
    }
    let file_diff = find_or_create_file_diff(result, line.path.as_str());
    let ghost found = file_diff@;
    proof {
        if !has_path(start, line.path@) {
            assert(found.hunks =~= Seq::<DiffHunkView>::empty());
            assert(found == with_file[place]);
            assert forall|v: FileDiffView| #[trigger]
                before.push(v) == with_file.update(place, v) by {
                assert(before.push(v) =~= with_file.update(place, v));
            }
        } else {
            assert(found == with_file[place]);
        }
    }
    match &line.hunk_header {
        Some(header) => maybe_add_hunk(file_diff, header.as_slice()),
        None => {},
    }
    let n = file_diff.hunks.len();
    if n > 0 {
        let ghost opened = file_diff@;
        let hunk = &mut file_diff.hunks[n - 1];
        let ghost last = hunk@;
        assert(last == opened.hunks.last());
        append_diff_line(
            hunk,
            line.origin,
            line.content.as_slice(),
            line.old_lineno,
            line.new_lineno,
        );
        assert(file_diff@.hunks =~= opened.hunks.update(
            n - 1,
            with_line(
                last,
                line_for(line.origin, line.content@, line.old_lineno, line.new_lineno),
            ),
        ));
    }
}

/// The first place of a path that occurs at `i`.
proof fn lemma_first_place(diffs: Seq<FileDiffView>, path: Seq<char>, i: int)
    requires
        0 <= i < diffs.len(),
        diffs[i].path == path,
    ensures
        exists|j: int| is_place(diffs, path, j),
    decreases i,
{
    if exists|k: int| 0 <= k < i && (#[trigger] diffs[k]).path == path {
        let k = choose|k: int| 0 <= k < i && (#[trigger] diffs[k]).path == path;
        lemma_first_place(diffs, path, k);
    } else {
        assert(is_place(diffs, path, i));
    }
}

/// A path has one first place.
proof fn lemma_place_is_unique(diffs: Seq<FileDiffView>, path: Seq<char>, i: int, j: int)
    requires
        is_place(diffs, path, i),
        exists|k: int| is_place(diffs, path, k),
        j == located(diffs, path).1,
    ensures
        i == j,
        located(diffs, path).0 == diffs,
{
    let k = choose|k: int| is_place(diffs, path, k);
    if k < i {
        assert(diffs[k].path != path);
    } else if i < k {
        assert(diffs[i].path != path);
    }
}

/// Collects a patch, line by line, into one record per file, in the order in which the
/// files first occur.
pub fn collect_diff_output(lines: &Vec<PatchLine>) -> (result: Vec<FileDiff>)
    ensures
        diff_views(result@) == collected(lines@),
{
    let mut result: Vec<FileDiff> = Vec::new();
    let mut i: usize = 0;
    assert(diff_views(result@) =~= collected(lines@.take(0)));
    while i < lines.len()
        invariant
            i <= lines@.len(),
            diff_views(result@) == collected(lines@.take(i as int)),
        decreases lines@.len() - i,
    {
        proof {
            let upto = lines@.take(i + 1);
            assert(upto.drop_last() =~= lines@.take(i as int));
            assert(upto.last() == lines@[i as int]);
        }
        record_patch_line(&mut result, &lines[i]);
        i += 1;
    }
    assert(lines@.take(lines@.len() as int) =~= lines@);
    result
}

} // verus!
