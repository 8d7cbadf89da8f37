//! Grapheme clusters and line breaks in strings.
use vstd::prelude::*;

use unicode_segmentation::UnicodeSegmentation;

verus! {

/// The number of extended grapheme clusters of `s`, as Unicode's text
/// segmentation rules count them.
pub uninterp spec fn grapheme_count_of(s: Seq<char>) -> nat;

/// The number of characters of the last extended grapheme cluster of `s`
/// (`0` when `s` is empty).
pub uninterp spec fn last_grapheme_len_of(s: Seq<char>) -> nat;

/// Relies on unicode_segmentation's `graphemes(true)`: it splits a string
/// into non-empty extended grapheme clusters that make up the whole string,
/// so there are no more of them than characters, and none in an empty string.
#[verifier::external_body]
pub(crate) fn grapheme_count(s: &str) -> (r: usize)
    ensures
        r == grapheme_count_of(s@),
        r <= s@.len(),
        s@.len() == 0 ==> r == 0,
{
    s.graphemes(true).count()
}

/// Relies on unicode_segmentation's `graphemes(true).next_back()`: the last
/// extended grapheme cluster of a non-empty string is a non-empty suffix of
/// it, and an empty string has none.
#[verifier::external_body]
pub(crate) fn last_grapheme_len(s: &str) -> (r: usize)
    ensures
        r == last_grapheme_len_of(s@),
        r <= s@.len(),
        s@.len() > 0 ==> r > 0,
{
    match s.graphemes(true).next_back() {
        Some(g) => g.chars().count(),
        None => 0,
    }
}

/// Relies on std's `char::to_string`: the string holding `c` alone.
#[verifier::external_body]
pub(crate) fn char_to_string(c: char) -> (r: String)
    ensures
        r@ == seq![c],
{
    c.to_string()
}

/// The number of line breaks (`'\n'`) in `s`.
pub open spec fn newline_count(s: Seq<char>) -> nat
    decreases s.len(),
{
    if s.len() == 0 {
        0
    } else {
        newline_count(s.drop_last()) + if s.last() == '\n' {
            1nat
        } else {
            0nat
        }
    }
}

/// Counts the line breaks of `s`.
pub fn count_newlines(s: &str) -> (r: usize)
    ensures
        r == newline_count(s@),
{
    let len = s.unicode_len();
    let mut n: usize = 0;
    for c in it: s.chars()
        invariant
            it.seq() == s@,
            s@.len() == len,
            n == newline_count(s@.take(it.index() as int)),
            n <= it.index(),
    {
        proof {
            let i = it.index() as int;
            assert(s@.take(i + 1).drop_last() =~= s@.take(i));
        }
        if c == '\n' {
            n = n + 1;
        }
    }
    proof {
        assert(s@.take(s@.len() as int) =~= s@);
    }
    n
}

} // verus!
