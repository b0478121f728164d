//! Small helpers on text that the rest of the crate shares.

use vstd::prelude::*;

verus! {

/// The characters of an optional string.
pub open spec fn text_of(s: Option<String>) -> Option<Seq<char>> {
    match s {
        Some(s) => Some(s@),
        None => None,
    }
}

/// Compares two string slices.
///
/// Trusted: wraps `str::eq` of the standard library, which holds exactly when both
/// slices spell the same characters.
#[verifier::external_body]
pub(crate) fn same_text(a: &str, b: &str) -> (same: bool)
    ensures
        same == (a@ == b@),
{
    a == b
}

/// Whether `c` is white space: whether Unicode gives it the property `White_Space`.
pub open spec fn white_space(c: char) -> bool {
    let code = c as u32;
    ||| 0x09 <= code <= 0x0d
    ||| code == 0x20
    ||| code == 0x85
    ||| code == 0xa0
    ||| code == 0x1680
    ||| 0x2000 <= code <= 0x200a
    ||| code == 0x2028
    ||| code == 0x2029
    ||| code == 0x202f
    ||| code == 0x205f
    ||| code == 0x3000
}

/// Tells whether a character is white space.
pub fn is_white_space(c: char) -> (space: bool)
    ensures
        space == white_space(c),
{
    let code = c as u32;
    (0x09 <= code && code <= 0x0d) || code == 0x20 || code == 0x85 || code == 0xa0 || code
        == 0x1680 || (0x2000 <= code && code <= 0x200a) || code == 0x2028 || code == 0x2029
        || code == 0x202f || code == 0x205f || code == 0x3000
}

/// `text` without the white space that it begins with.
pub open spec fn trimmed_start(text: Seq<char>) -> Seq<char>
    decreases text.len(),
{
    if text.len() > 0 && white_space(text[0]) {
        trimmed_start(text.skip(1))
    } else {
        text
    }
}

/// `text` without the white space that it ends with.
pub open spec fn trimmed_end(text: Seq<char>) -> Seq<char>
    decreases text.len(),
{
    if text.len() > 0 && white_space(text.last()) {
        trimmed_end(text.drop_last())
    } else {
        text
    }
}

/// `text` without the white space around it.
pub open spec fn trimmed(text: Seq<char>) -> Seq<char> {
    trimmed_end(trimmed_start(text))
}

/// Removes the white space around a text.
///
/// Trusted: wraps `str::trim` of the standard library, which removes the leading and
/// the trailing characters that have the Unicode property `White_Space`.
#[verifier::external_body]
pub(crate) fn trim(text: &str) -> (inner: &str)
    ensures
        inner@ == trimmed(text@),
{
    text.trim()
}

/// Appends one character to a string.
///
/// Trusted: wraps `String::push` of the standard library.
#[verifier::external_body]
pub(crate) fn push_char(text: &mut String, c: char)
    ensures
        final(text)@ == old(text)@.push(c),
{
    text.push(c)
}

/// `text` with a backslash before every backslash and every double quote.
pub open spec fn quoted(text: Seq<char>) -> Seq<char>
    decreases text.len(),
{
    if text.len() == 0 {
        Seq::empty()
    } else if text.last() == '\\' || text.last() == '"' {
        quoted(text.drop_last()).push('\\').push(text.last())
    } else {
        quoted(text.drop_last()).push(text.last())
    }
}

/// Puts a backslash before every backslash and every double quote of `text`.
pub fn quote(text: &str) -> (out: String)
    ensures
        out@ == quoted(text@),
{
    let mut out = String::new();
    for c in iter: text.chars()
        invariant
            iter.seq() == text@,
            out@ == quoted(text@.take(iter.index() as int)),
    {
        proof {
            let upto = text@.take(iter.index() + 1);
            assert(upto.drop_last() =~= text@.take(iter.index() as int));
            assert(upto.last() == c);
        }
        if c == '\\' || c == '"' {
            push_char(&mut out, '\\');
        }
        push_char(&mut out, c);
    }
    assert(text@.take(text@.len() as int) =~= text@);
    out
}

/// The text that `String::from_utf8_lossy` reads from `bytes`: their UTF-8 decoding, with
/// the replacement character in place of what is not valid.
pub uninterp spec fn lossy_utf8(bytes: Seq<u8>) -> Seq<char>;

/// Reads bytes as text, replacing what is not valid UTF-8.
///
/// Trusted: wraps `String::from_utf8_lossy` of the standard library. The claim is that
/// the text depends on the bytes alone.
#[verifier::external_body]
pub(crate) fn lossy_text(bytes: &[u8]) -> (text: String)
    ensures
        text@ == lossy_utf8(bytes@),
{
    String::from_utf8_lossy(bytes).into_owned()
}

/// Joins three texts.
pub fn join3(a: &str, b: &str, c: &str) -> (out: String)
    ensures
        out@ == a@ + b@ + c@,
{
    let mut out = a.to_owned();
    out.append(b);
    out.append(c);
    out
}

/// Whether `a` comes before `b` in the order of strings: character by character, by
/// code point, a proper prefix first.
pub open spec fn text_before(a: Seq<char>, b: Seq<char>) -> bool
    decreases a.len(),
{
    if b.len() == 0 {
        false
    } else if a.len() == 0 {
        true
    } else if a[0] != b[0] {
        (a[0] as u32) < (b[0] as u32)
    } else {
        text_before(a.skip(1), b.skip(1))
    }
}

/// Tells whether one string comes before another.
///
/// Trusted: wraps `<` on `str` of the standard library, which orders strings
/// lexicographically by their bytes, and with that by their code points.
#[verifier::external_body]
pub(crate) fn text_less(a: &str, b: &str) -> (less: bool)
    ensures
        less == text_before(a@, b@),
{
    a < b
}

/// Of two strings at most one comes before the other.
pub proof fn lemma_text_before_asymmetric(a: Seq<char>, b: Seq<char>)
    requires
        text_before(a, b),
    ensures
        !text_before(b, a),
    decreases a.len(),
{
    if a.len() > 0 && b.len() > 0 && a[0] == b[0] {
        lemma_text_before_asymmetric(a.skip(1), b.skip(1));
    }
}

/// The lowercase form that `str::to_lowercase` gives of `text`.
pub uninterp spec fn lowercase(text: Seq<char>) -> Seq<char>;

/// Gives the lowercase form of a text.
///
/// Trusted: wraps `str::to_lowercase` of the standard library. The claim is that the
/// result depends on the text alone.
#[verifier::external_body]
pub(crate) fn to_lowercase(text: &str) -> (lower: String)
    ensures
        lower@ == lowercase(text@),
{
    text.to_lowercase()
}

} // verus!
