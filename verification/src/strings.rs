//! Text helpers shared by the modules.

use vstd::prelude::*;
use vstd::string::{StrSliceExecFns, StringExecFns};

verus! {

/// The texts of a list of strings, in order.
pub open spec fn texts(strings: Seq<String>) -> Seq<Seq<char>> {
    Seq::new(strings.len(), |i: int| strings[i]@)
}

/// The text of an optional string.
pub open spec fn text_view(text: Option<String>) -> Option<Seq<char>> {
    match text {
        Some(t) => Some(t@),
        None => None,
    }
}

/// The pieces of a text between the occurrences of a separator, read
/// character by character: a separator begins a new piece, any other
/// character goes to the end of the last piece. A text without separator is
/// one piece, and the empty text is one empty piece.
pub open spec fn pieces(text: Seq<char>, separator: char) -> Seq<Seq<char>>
    decreases text.len(),
{
    if text.len() == 0 {
        seq![Seq::empty()]
    } else {
        let before = pieces(text.drop_last(), separator);
        if text.last() == separator {
            before.push(Seq::empty())
        } else {
            before.drop_last().push(before.last().push(text.last()))
        }
    }
}

/// Whether `pattern` stands somewhere in `text`.
pub open spec fn has_substring(text: Seq<char>, pattern: Seq<char>) -> bool {
    exists|i: int|
        0 <= i <= text.len() - pattern.len() && #[trigger] text.subrange(i, i + pattern.len())
            == pattern
}

/// Calls `str::contains` with a text as pattern, which tells whether the
/// pattern matches a part of the text.
#[verifier::external_body]
pub(crate) fn contains(text: &str, pattern: &str) -> (found: bool)
    ensures
        found == has_substring(text@, pattern@),
{
    text.contains(pattern)
}

/// Tells whether two texts are the same.
pub fn text_equals(a: &str, b: &str) -> (same: bool)
    ensures
        same == (a@ == b@),
{
    String::from_str(a) == String::from_str(b)
}

/// Cuts a text at every occurrence of a separator.
pub fn split_pieces(text: &str, separator: char) -> (parts: Vec<String>)
    ensures
        texts(parts@) == pieces(text@, separator),
        parts@.len() >= 1,
{
    let n: usize = text.unicode_len();
    let mut parts: Vec<String> = Vec::new();
    let mut start: usize = 0;
    let mut i: usize = 0;
    proof {
        assert(text@.subrange(0, 0) =~= Seq::<char>::empty());
        assert(texts(parts@).push(text@.subrange(0, 0)) =~= seq![Seq::<char>::empty()]);
    }
    while i < n
        invariant
            start <= i <= n,
            n == text@.len(),
            pieces(text@.take(i as int), separator) == texts(parts@).push(
                text@.subrange(start as int, i as int),
            ),
        decreases n - i,
    {
        let c: char = text.get_char(i);
        proof {
            assert(text@.take(i + 1).drop_last() =~= text@.take(i as int));
            assert(text@.take(i + 1).last() == text@[i as int]);
        }
        if c == separator {
            let ghost before = texts(parts@);
            parts.push(String::from_str(text.substring_char(start, i)));
            assert(texts(parts@) =~= before.push(text@.subrange(start as int, i as int)));
            start = i + 1;
            assert(text@.subrange(start as int, i + 1) =~= Seq::<char>::empty());
        } else {
            let ghost last = texts(parts@).push(text@.subrange(start as int, i as int));
            assert(last.drop_last() =~= texts(parts@));
            assert(last.last().push(text@[i as int]) =~= text@.subrange(start as int, i + 1));
        }
        i += 1;
    }
    let ghost before = texts(parts@);
    parts.push(String::from_str(text.substring_char(start, n)));
    proof {
        assert(text@.take(n as int) =~= text@);
        assert(texts(parts@) =~= before.push(text@.subrange(start as int, n as int)));
    }
    parts
}

} // verus!
