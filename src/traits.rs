//! The capabilities that the host lends to the engine: read-only access to
//! its text, and a clipboard register.
use vstd::prelude::*;

use crate::types::{Position, Range};

verus! {

/// The index of the last line of a buffer of `line_count` lines (`0` for
/// a buffer without lines).
pub open spec fn last_line_of(line_count: u32) -> u32 {
    if line_count == 0 {
        0
    } else {
        (line_count - 1) as u32
    }
}

/// `line` capped at the last line of a buffer of `line_count` lines.
pub open spec fn capped_line(line_count: u32, line: u32) -> u32 {
    if line <= last_line_of(line_count) {
        line
    } else {
        last_line_of(line_count)
    }
}

/// `col` capped at `len`.
pub open spec fn capped_col(col: u32, len: u32) -> u32 {
    if col <= len {
        col
    } else {
        len
    }
}

/// `p` lies in a buffer of `line_count` lines whose line `p.line` has
/// `line_len` graphemes (one past the last grapheme included).
pub open spec fn within(line_count: u32, line_len: u32, p: Position) -> bool {
    p.line <= last_line_of(line_count) && p.col <= line_len
}

/// The index of the last line of the host's buffer.
pub open spec fn last_line<T: TextOps + ?Sized>(t: &T) -> u32 {
    last_line_of(t.spec_line_count())
}

/// The position nearest to `p` that lies inside the buffer: the line is
/// capped at the last line, then the column at that line's length.
pub open spec fn clamped<T: TextOps + ?Sized>(t: &T, p: Position) -> Position {
    let line = capped_line(t.spec_line_count(), p.line);
    Position { line, col: capped_col(p.col, t.spec_line_len(line)) }
}

/// `p` lies inside the buffer (one past the end of a line included), so
/// that clamping leaves it unchanged.
pub open spec fn in_bounds<T: TextOps + ?Sized>(t: &T, p: Position) -> bool {
    within(t.spec_line_count(), t.spec_line_len(p.line), p)
}

/// The host's queries obey their contract on every argument: lines past
/// the end are empty; horizontal moves stay on their line (left never moves
/// right, right stops one past the last grapheme); vertical, word and
/// paragraph moves from a position inside the buffer land inside it; a found
/// character lies after the start position on its line; a search match lies
/// inside the buffer.  Each executable query promises its own part of this
/// for the arguments it is called with.
pub open spec fn lawful<T: TextOps + ?Sized>(t: &T) -> bool {
    &&& (forall|line: u32|
            line >= t.spec_line_count() ==> #[trigger] t.spec_line_len(line) == 0)
    &&& (forall|pos: Position, count: u32|
            #![trigger t.spec_move_left(pos, count)]
            t.spec_move_left(pos, count).line == pos.line && t.spec_move_left(
                pos,
                count,
            ).col <= pos.col)
    &&& (forall|pos: Position, count: u32|
            #![trigger t.spec_move_right(pos, count)]
            t.spec_move_right(pos, count).line == pos.line && t.spec_move_right(
                pos,
                count,
            ).col <= t.spec_line_len(pos.line))
    &&& (forall|pos: Position, count: u32, pref: Option<u32>|
            #![trigger t.spec_move_up(pos, count, pref)]
            within(t.spec_line_count(), t.spec_line_len(pos.line), pos) ==> within(
                t.spec_line_count(),
                t.spec_line_len(t.spec_move_up(pos, count, pref).line),
                t.spec_move_up(pos, count, pref),
            ))
    &&& (forall|pos: Position, count: u32, pref: Option<u32>|
            #![trigger t.spec_move_down(pos, count, pref)]
            within(t.spec_line_count(), t.spec_line_len(pos.line), pos) ==> within(
                t.spec_line_count(),
                t.spec_line_len(t.spec_move_down(pos, count, pref).line),
                t.spec_move_down(pos, count, pref),
            ))
    &&& (forall|pos: Position, count: u32|
            #![trigger t.spec_next_word_start(pos, count)]
            within(t.spec_line_count(), t.spec_line_len(pos.line), pos) ==> within(
                t.spec_line_count(),
                t.spec_line_len(t.spec_next_word_start(pos, count).line),
                t.spec_next_word_start(pos, count),
            ))
    &&& (forall|pos: Position, count: u32|
            #![trigger t.spec_prev_word_start(pos, count)]
            within(t.spec_line_count(), t.spec_line_len(pos.line), pos) ==> within(
                t.spec_line_count(),
                t.spec_line_len(t.spec_prev_word_start(pos, count).line),
                t.spec_prev_word_start(pos, count),
            ))
    &&& (forall|pos: Position, count: u32|
            #![trigger t.spec_next_paragraph_start(pos, count)]
            within(t.spec_line_count(), t.spec_line_len(pos.line), pos) ==> within(
                t.spec_line_count(),
                t.spec_line_len(t.spec_next_paragraph_start(pos, count).line),
                t.spec_next_paragraph_start(pos, count),
            ))
    &&& (forall|pos: Position, count: u32|
            #![trigger t.spec_prev_paragraph_start(pos, count)]
            within(t.spec_line_count(), t.spec_line_len(pos.line), pos) ==> within(
                t.spec_line_count(),
                t.spec_line_len(t.spec_prev_paragraph_start(pos, count).line),
                t.spec_prev_paragraph_start(pos, count),
            ))
    &&& (forall|pos: Position, ch: char, count: u32|
            #![trigger t.spec_find_in_line(pos, ch, count)]
            t.spec_find_in_line(pos, ch, count) matches Some(p) ==> p.line == pos.line
                && pos.col < p.col && p.col < t.spec_line_len(pos.line))
    &&& (forall|from: Position, needle: Seq<char>, wrap: bool|
            #![trigger t.spec_search_forward(from, needle, wrap)]
            t.spec_search_forward(from, needle, wrap) matches Some(p) ==> within(
                t.spec_line_count(),
                t.spec_line_len(p.line),
                p,
            ))
    &&& (forall|from: Position, needle: Seq<char>, wrap: bool|
            #![trigger t.spec_search_backward(from, needle, wrap)]
            t.spec_search_backward(from, needle, wrap) matches Some(p) ==> within(
                t.spec_line_count(),
                t.spec_line_len(p.line),
                p,
            ))
}

/// The column of the last character of a line of `len` graphemes (`0` on an
/// empty line).
pub open spec fn last_col(len: u32) -> u32 {
    if len == 0 {
        0
    } else {
        (len - 1) as u32
    }
}

/// Read-only, grapheme-aware navigation over the host's text.
///
/// Every query is a function of the buffer and its arguments: the spec
/// functions name the answers, and each executable method returns the
/// answer that its spec function names, with the guarantees that its
/// `ensures` states ([`lawful`] gathers them over all arguments).  The spec
/// functions' default bodies say nothing about the answers; they only let a
/// host written outside Verus implement the executable methods alone.
/// Columns are counted in grapheme clusters.  The engine never owns or
/// changes the text.
pub trait TextOps {
    /// The number of lines.
    closed spec fn spec_line_count(&self) -> u32 {
        arbitrary()
    }

    /// The number of graphemes of a line, without its line break.
    closed spec fn spec_line_len(&self, line: u32) -> u32 {
        arbitrary()
    }

    /// Where moving left by `count` from `pos` lands.
    closed spec fn spec_move_left(&self, pos: Position, count: u32) -> Position {
        arbitrary()
    }

    /// Where moving right by `count` from `pos` lands.
    closed spec fn spec_move_right(&self, pos: Position, count: u32) -> Position {
        arbitrary()
    }

    /// Where moving up by `count` lines lands, aiming at `preferred_col`.
    closed spec fn spec_move_up(&self, pos: Position, count: u32, preferred_col: Option<u32>) -> Position {
        arbitrary()
    }

    /// Where moving down by `count` lines lands, aiming at `preferred_col`.
    closed spec fn spec_move_down(&self, pos: Position, count: u32, preferred_col: Option<u32>) -> Position {
        arbitrary()
    }

    /// The start of the `count`-th next word.
    closed spec fn spec_next_word_start(&self, pos: Position, count: u32) -> Position {
        arbitrary()
    }

    /// The start of the `count`-th previous word.
    closed spec fn spec_prev_word_start(&self, pos: Position, count: u32) -> Position {
        arbitrary()
    }

    /// The start of the `count`-th next paragraph.
    closed spec fn spec_next_paragraph_start(&self, pos: Position, count: u32) -> Position {
        arbitrary()
    }

    /// The start of the `count`-th previous paragraph.
    closed spec fn spec_prev_paragraph_start(&self, pos: Position, count: u32) -> Position {
        arbitrary()
    }

    /// The `count`-th grapheme after `pos` on its line whose first character
    /// is `ch`.
    closed spec fn spec_find_in_line(&self, pos: Position, ch: char, count: u32) -> Option<Position> {
        arbitrary()
    }

    /// The text of a range, line breaks included.
    closed spec fn spec_slice(&self, range: Range) -> Seq<char> {
        arbitrary()
    }

    /// The start of the next match of `needle` after `from`.
    closed spec fn spec_search_forward(&self, from: Position, needle: Seq<char>, wrap: bool) -> Option<
        Position,
    > {
        arbitrary()
    }

    /// The start of the previous match of `needle` before `from`.
    closed spec fn spec_search_backward(&self, from: Position, needle: Seq<char>, wrap: bool) -> Option<
        Position,
    > {
        arbitrary()
    }

    /// The number of lines.
    fn line_count(&self) -> (r: u32)
        ensures
            r == self.spec_line_count(),
    ;

    /// The length of a line in graphemes; `0` past the last line.
    fn line_len(&self, line: u32) -> (r: u32)
        ensures
            r == self.spec_line_len(line),
            line >= self.spec_line_count() ==> r == 0,
    ;

    /// Moves left by `count` graphemes on the same line, stopping at its start.
    fn move_left(&self, pos: Position, count: u32) -> (r: Position)
        ensures
            r == self.spec_move_left(pos, count),
            r.line == pos.line,
            r.col <= pos.col,
    ;

    /// Moves right by `count` graphemes on the same line, stopping one past
    /// its last grapheme.
    fn move_right(&self, pos: Position, count: u32) -> (r: Position)
        ensures
            r == self.spec_move_right(pos, count),
            r.line == pos.line,
            r.col <= self.spec_line_len(pos.line),
    ;

    /// Moves up by `count` lines, to `preferred_col` (or the current column)
    /// capped at the target line's length.
    fn move_up(&self, pos: Position, count: u32, preferred_col: Option<u32>) -> (r: Position)
        ensures
            r == self.spec_move_up(pos, count, preferred_col),
            within(self.spec_line_count(), self.spec_line_len(pos.line), pos) ==> within(
                self.spec_line_count(),
                self.spec_line_len(r.line),
                r,
            ),
    ;

    /// Moves down by `count` lines, to `preferred_col` (or the current
    /// column) capped at the target line's length.
    fn move_down(&self, pos: Position, count: u32, preferred_col: Option<u32>) -> (r: Position)
        ensures
            r == self.spec_move_down(pos, count, preferred_col),
            within(self.spec_line_count(), self.spec_line_len(pos.line), pos) ==> within(
                self.spec_line_count(),
                self.spec_line_len(r.line),
                r,
            ),
    ;

    /// The start of a line.
    fn line_start(&self, line: u32) -> (r: Position)
        ensures
            r.line == line,
            r.col == 0,
    ;

    /// The last grapheme of a line (not one past it); column `0` on an empty
    /// line.
    fn line_end(&self, line: u32) -> (r: Position)
        ensures
            r.line == line,
            r.col == last_col(self.spec_line_len(line)),
    ;

    /// Caps a position to the buffer: the line at the last line, then the
    /// column at that line's length.
    fn clamp(&self, pos: Position) -> (r: Position)
        ensures
            r.line == capped_line(self.spec_line_count(), pos.line),
            r.col == capped_col(pos.col, self.spec_line_len(r.line)),
    {
        let count = self.line_count();
        let last = if count == 0 {
            0
        } else {
            count - 1
        };
        let line = if pos.line <= last {
            pos.line
        } else {
            last
        };
        let len = self.line_len(line);
        let col = if pos.col <= len {
            pos.col
        } else {
            len
        };
        Position { line, col }
    }

    /// The start of the `count`-th next word (a word is a run of
    /// alphanumeric characters and `_`), across lines, capped at the end of
    /// the buffer.
    fn next_word_start(&self, pos: Position, count: u32) -> (r: Position)
        ensures
            r == self.spec_next_word_start(pos, count),
            within(self.spec_line_count(), self.spec_line_len(pos.line), pos) ==> within(
                self.spec_line_count(),
                self.spec_line_len(r.line),
                r,
            ),
    ;

    /// The start of the `count`-th previous word, across lines, capped at
    /// the start of the buffer.
    fn prev_word_start(&self, pos: Position, count: u32) -> (r: Position)
        ensures
            r == self.spec_prev_word_start(pos, count),
            within(self.spec_line_count(), self.spec_line_len(pos.line), pos) ==> within(
                self.spec_line_count(),
                self.spec_line_len(r.line),
                r,
            ),
    ;

    /// The first line after the `count`-th next run of blank lines, or the
    /// end of the buffer.
    fn next_paragraph_start(&self, pos: Position, count: u32) -> (r: Position)
        ensures
            r == self.spec_next_paragraph_start(pos, count),
            within(self.spec_line_count(), self.spec_line_len(pos.line), pos) ==> within(
                self.spec_line_count(),
                self.spec_line_len(r.line),
                r,
            ),
    ;

    /// The first line of the `count`-th previous paragraph, or the start of
    /// the buffer.
    fn prev_paragraph_start(&self, pos: Position, count: u32) -> (r: Position)
        ensures
            r == self.spec_prev_paragraph_start(pos, count),
            within(self.spec_line_count(), self.spec_line_len(pos.line), pos) ==> within(
                self.spec_line_count(),
                self.spec_line_len(r.line),
                r,
            ),
    ;

    /// The `count`-th grapheme strictly after `pos` on its line whose first
    /// character is `ch`; no wrap to other lines.  `before` tells whether
    /// the engine resolves a `t` motion; the answer does not depend on it.
    fn find_in_line(&self, pos: Position, ch: char, before: bool, count: u32) -> (r: Option<
        Position,
    >)
        ensures
            r == self.spec_find_in_line(pos, ch, count),
            r matches Some(p) ==> p.line == pos.line && pos.col < p.col && p.col
                < self.spec_line_len(pos.line),
    ;

    /// The text of `[range.start, range.end)`, line breaks included.
    fn slice_to_string(&self, range: Range) -> (r: String)
        requires
            range.is_ordered(),
        ensures
            r@ == self.spec_slice(range),
    ;

    /// The start of the first match of `needle` strictly after `from`; with
    /// `wrap`, the search goes on from the start of the buffer.
    fn search_forward(&self, from: Position, needle: &str, wrap: bool) -> (r: Option<Position>)
        ensures
            r == self.spec_search_forward(from, needle@, wrap),
            r matches Some(p) ==> within(self.spec_line_count(), self.spec_line_len(p.line), p),
    ;

    /// The start of the last match of `needle` strictly before `from`; with
    /// `wrap`, the search goes on from the end of the buffer.
    fn search_backward(&self, from: Position, needle: &str, wrap: bool) -> (r: Option<Position>)
        ensures
            r == self.spec_search_backward(from, needle@, wrap),
            r matches Some(p) ==> within(self.spec_line_count(), self.spec_line_len(p.line), p),
    ;
}

/// The text held by an optional string.
pub open spec fn opt_text(s: Option<String>) -> Option<Seq<char>> {
    match s {
        Some(t) => Some(t@),
        None => None,
    }
}

/// A single unnamed register for yank and paste.  A trailing line break in
/// the register's text marks it as whole lines.  The default body of
/// `register` says nothing; a host written outside Verus need not define it.
pub trait Clipboard {
    /// The text the register holds.
    closed spec fn register(&self) -> Option<Seq<char>> {
        arbitrary()
    }

    /// Reads the register, leaving it unchanged.
    fn get(&mut self) -> (r: Option<String>)
        ensures
            opt_text(r) == old(self).register(),
            final(self).register() == old(self).register(),
    ;

    /// Replaces the register's text.
    fn set(&mut self, text: String)
        ensures
            final(self).register() == Some(text@),
    ;
}

} // verus!
