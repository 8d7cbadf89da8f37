//! Coordinates, selections, modes and the commands handed to the host.
use vstd::prelude::*;

verus! {

/// A position in a text buffer: a zero-based line and a zero-based column
/// counted in grapheme clusters.  Positions order by line, then column.
#[derive(Debug, Clone, Copy, PartialEq, Eq, Structural, PartialOrd, Ord, Hash)]
pub struct Position {
    /// Zero-based line number.
    pub line: u32,
    /// Zero-based column, in grapheme clusters.
    pub col: u32,
}

impl Position {
    /// The origin `(0, 0)`.
    pub fn zero() -> (r: Position)
        ensures
            r.line == 0 && r.col == 0,
    {
        Position { line: 0, col: 0 }
    }

    /// Lexicographic order on positions: line first, then column.
    pub open spec fn spec_le(self, other: Position) -> bool {
        self.line < other.line || (self.line == other.line && self.col <= other.col)
    }

    /// Executable form of [`Position::spec_le`].
    pub fn le(&self, other: &Position) -> (r: bool)
        ensures
            r == self.spec_le(*other),
    {
        self.line < other.line || (self.line == other.line && self.col <= other.col)
    }
}

} // verus!

verus! {

/// The smaller of two positions in lexicographic order.
pub open spec fn pos_min(a: Position, b: Position) -> Position {
    if a.spec_le(b) {
        a
    } else {
        b
    }
}

/// The larger of two positions in lexicographic order.
pub open spec fn pos_max(a: Position, b: Position) -> Position {
    if a.spec_le(b) {
        b
    } else {
        a
    }
}

/// A half-open range `[start, end)` of positions.
#[derive(Debug, Clone, Copy, PartialEq, Eq, Structural)]
pub struct Range {
    /// The first position inside the range.
    pub start: Position,
    /// The first position past the range.
    pub end: Position,
}

impl Range {
    /// The range spanned by two positions, whichever order they come in.
    pub open spec fn spec_spanning(a: Position, b: Position) -> Range {
        Range { start: pos_min(a, b), end: pos_max(a, b) }
    }

    /// Builds the range between `a` and `b`, putting the smaller one first.
    pub fn spanning(a: Position, b: Position) -> (r: Range)
        ensures
            r == Range::spec_spanning(a, b),
    {
        if a.le(&b) {
            Range { start: a, end: b }
        } else {
            Range { start: b, end: a }
        }
    }

    /// The range is ordered: `start <= end`.
    pub open spec fn is_ordered(self) -> bool {
        self.start.spec_le(self.end)
    }
}

/// The kind of a visual selection.
#[derive(Debug, Clone, Copy, PartialEq, Eq, Structural)]
pub enum VisualKind {
    /// Character-wise selection (`v`).
    CharWise,
    /// Line-wise selection (`V`).
    LineWise,
}

/// The mode of the engine.
#[derive(Debug, Clone, Copy, PartialEq, Eq, Structural)]
pub enum Mode {
    /// Navigation and operators.
    Normal,
    /// Typing text.
    Insert,
    /// Selecting text.
    Visual(VisualKind),
    /// Typing a search query after `/`.
    SearchPrompt,
}

/// A selection: its two ends and its kind.
#[derive(Debug, Clone, Copy, PartialEq, Eq, Structural)]
pub struct Selection {
    /// The first end of the selection.
    pub start: Position,
    /// The last end of the selection.
    pub end: Position,
    /// Character-wise or line-wise.
    pub kind: VisualKind,
}

/// A command for the host to apply to its buffer, in the order given.
#[derive(Debug, Clone, PartialEq, Eq)]
pub enum Command {
    /// Move the cursor.
    SetCursor(Position),
    /// Set the selection, or clear it with `None`.
    SetSelection(Option<Selection>),
    /// Remove the text in `[range.start, range.end)`.
    Delete { range: Range },
    /// Insert `text` at `at`.
    InsertText { at: Position, text: String },
}

/// A [`Command`] with its text seen as a sequence of characters.
pub enum CommandView {
    /// Move the cursor.
    SetCursor(Position),
    /// Set or clear the selection.
    SetSelection(Option<Selection>),
    /// Remove the text of the range.
    Delete { range: Range },
    /// Insert the characters at the position.
    InsertText { at: Position, text: Seq<char> },
}

impl View for Command {
    type V = CommandView;

    open spec fn view(&self) -> CommandView {
        match self {
            Command::SetCursor(p) => CommandView::SetCursor(*p),
            Command::SetSelection(s) => CommandView::SetSelection(*s),
            Command::Delete { range } => CommandView::Delete { range: *range },
            Command::InsertText { at, text } => CommandView::InsertText { at: *at, text: text@ },
        }
    }
}

/// The commands of a list, each seen through its view.
pub open spec fn commands_view(cmds: Seq<Command>) -> Seq<CommandView> {
    cmds.map_values(|c: Command| c@)
}

} // verus!
