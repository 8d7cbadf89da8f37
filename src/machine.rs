//! The engine as a state machine: its abstract state and the transition
//! that each input event makes, stated over the host's text queries and
//! the clipboard register.
use vstd::prelude::*;

use crate::key::{InputEvent, KeyCode, KeyEvent, Modifiers};
use crate::text::{grapheme_count_of, last_grapheme_len_of, newline_count};
use crate::traits::{clamped, last_col, last_line, TextOps};
use crate::types::{pos_max, pos_min, CommandView, Mode, Position, Range, Selection, VisualKind};

verus! {

/// The largest count that digits can build; more digits leave it there.
pub const MAX_COUNT: u32 = 10000;

/// A multi-key sequence waiting for its next key.
#[derive(Debug, Clone, Copy, PartialEq, Eq, Structural)]
pub enum PendingKey {
    /// Nothing pending.
    Idle,
    /// `g`, waiting for the second `g`.
    G,
    /// `d`, waiting for the second `d`.
    D,
    /// `y`, waiting for the second `y`.
    Y,
    /// `f` (or `t` when `before`), waiting for the character to find.
    F { before: bool },
}

/// An operator waiting for its motion.
#[derive(Debug, Clone, Copy, PartialEq, Eq, Structural)]
pub enum Operator {
    /// Remove the text (and put it in the register).
    Delete,
    /// Copy the text to the register.
    Yank,
}

/// A motion: a way to compute a target position from the cursor.
#[derive(Debug, Clone, Copy, PartialEq, Eq, Structural)]
pub enum Motion {
    /// `h`
    Left,
    /// `l`
    Right,
    /// `k`
    Up,
    /// `j`
    Down,
    /// `0`
    LineStart,
    /// `$`
    LineEnd,
    /// `w`
    WordForward,
    /// `b`
    WordBackward,
    /// `{`
    ParagraphBackward,
    /// `}`
    ParagraphForward,
    /// `gg`: the counted line, else the first.
    FirstLine,
    /// `G`: the counted line, else the last.
    LastLine,
}

/// The last committed search.
pub struct SearchView {
    /// The query searched for.
    pub needle: Seq<char>,
    /// Whether it searched forward.
    pub forward: bool,
}

/// The abstract state of an engine.
pub struct EngineView {
    /// The current mode.
    pub mode: Mode,
    /// Sticky column for vertical motions.
    pub preferred_col: Option<u32>,
    /// The numeric prefix typed so far.
    pub count: Option<u32>,
    /// The multi-key sequence waiting for its next key.
    pub pending: PendingKey,
    /// The operator waiting for its motion.
    pub op_pending: Option<Operator>,
    /// The fixed end of a visual selection.
    pub visual_anchor: Option<Position>,
    /// The query typed in the search prompt.
    pub search_query: Seq<char>,
    /// The last committed search, for `n` and `N`.
    pub last_search: Option<SearchView>,
    /// The cursor when the search prompt opened.
    pub search_resume_cursor: Position,
}

/// What one event produces: the next state, the new cursor, the commands
/// for the host, and the register's text afterwards.
pub struct Outcome {
    /// The state after the event.
    pub state: EngineView,
    /// The cursor after the event.
    pub cursor: Position,
    /// The commands for the host, in order.
    pub commands: Seq<CommandView>,
    /// The register's text after the event.
    pub register: Option<Seq<char>>,
}

impl EngineView {
    /// The state of a fresh engine in `mode`: nothing pending, no count, no
    /// search.  A visual mode starts anchored at the origin.
    pub open spec fn initial(mode: Mode) -> EngineView {
        EngineView {
            mode,
            preferred_col: None,
            count: None,
            pending: PendingKey::Idle,
            op_pending: None,
            visual_anchor: if mode is Visual {
                Some(Position { line: 0, col: 0 })
            } else {
                None
            },
            search_query: Seq::empty(),
            last_search: None,
            search_resume_cursor: Position { line: 0, col: 0 },
        }
    }

    /// The invariants of the state.
    pub open spec fn wf(self) -> bool {
        &&& (self.visual_anchor is Some <==> self.mode is Visual)
        &&& (self.op_pending is Some ==> self.mode == Mode::Normal)
        &&& (self.pending == PendingKey::D ==> self.op_pending == Some(Operator::Delete))
        &&& (self.pending == PendingKey::Y ==> self.op_pending == Some(Operator::Yank))
        &&& (self.pending is F ==> self.mode == Mode::Normal)
        &&& (self.pending == PendingKey::G ==> (self.mode == Mode::Normal || self.mode is Visual))
        &&& (self.mode != Mode::SearchPrompt ==> self.search_query.len() == 0)
        &&& ((self.mode == Mode::Insert || self.mode == Mode::SearchPrompt) ==> self.count is None
            && self.pending == PendingKey::Idle)
        &&& (self.count matches Some(n) ==> 1 <= n <= MAX_COUNT)
    }

    /// Nothing transient is held: no count, no pending key, no operator.
    pub open spec fn at_rest(self) -> bool {
        self.count is None && self.pending == PendingKey::Idle && self.op_pending is None
    }
}

/// `x` capped at `u32::MAX`.
pub open spec fn sat(x: int) -> u32 {
    if x < 0 {
        0
    } else if x > u32::MAX {
        u32::MAX
    } else {
        x as u32
    }
}

/// The value of a decimal digit character.
pub open spec fn digit_value(c: char) -> Option<u32> {
    if '0' <= c && c <= '9' {
        Some((c as u32 - '0' as u32) as u32)
    } else {
        None
    }
}

/// The count after typing digit `d`.
pub open spec fn pushed_count(count: Option<u32>, d: u32) -> u32 {
    let n = match count {
        Some(n) => n as int,
        None => 0,
    };
    let v = n * 10 + d;
    if v > MAX_COUNT {
        MAX_COUNT
    } else {
        v as u32
    }
}

/// The count that a command uses: the typed count, at least one.
pub open spec fn count_or_one(count: Option<u32>) -> u32 {
    match count {
        Some(n) => if n >= 1 {
            n
        } else {
            1
        },
        None => 1,
    }
}

/// The line that `gg` (or, with `to_last`, `G`) goes to: the counted line
/// capped at the last one, else the first (or last) line.
pub open spec fn counted_line<T: TextOps>(t: &T, count: Option<u32>, to_last: bool) -> u32 {
    match count {
        Some(n) if n >= 1 => if n - 1 <= last_line(t) {
            (n - 1) as u32
        } else {
            last_line(t)
        },
        _ => if to_last {
            last_line(t)
        } else {
            0
        },
    }
}

/// The motion that a key names, for keys that are motions by themselves.
pub open spec fn motion_of(c: char) -> Option<Motion> {
    if c == 'h' {
        Some(Motion::Left)
    } else if c == 'l' {
        Some(Motion::Right)
    } else if c == 'k' {
        Some(Motion::Up)
    } else if c == 'j' {
        Some(Motion::Down)
    } else if c == '0' {
        Some(Motion::LineStart)
    } else if c == '$' {
        Some(Motion::LineEnd)
    } else if c == 'w' {
        Some(Motion::WordForward)
    } else if c == 'b' {
        Some(Motion::WordBackward)
    } else if c == '{' {
        Some(Motion::ParagraphBackward)
    } else if c == '}' {
        Some(Motion::ParagraphForward)
    } else if c == 'G' {
        Some(Motion::LastLine)
    } else {
        None
    }
}

/// The start of a line.
pub open spec fn start_of(line: u32) -> Position {
    Position { line, col: 0 }
}

/// The last grapheme of a line.
pub open spec fn end_of<T: TextOps>(t: &T, line: u32) -> Position {
    Position { line, col: last_col(t.spec_line_len(line)) }
}

/// Where motion `m` goes from `c`, repeated `n` times, with `count` as typed
/// and `pref` as the preferred column.
pub open spec fn motion_target<T: TextOps>(
    t: &T,
    m: Motion,
    c: Position,
    n: u32,
    count: Option<u32>,
    pref: Option<u32>,
) -> Position {
    match m {
        Motion::Left => t.spec_move_left(c, n),
        Motion::Right => t.spec_move_right(c, n),
        Motion::Up => t.spec_move_up(c, n, pref),
        Motion::Down => t.spec_move_down(c, n, pref),
        Motion::LineStart => start_of(c.line),
        Motion::LineEnd => end_of(t, c.line),
        Motion::WordForward => t.spec_next_word_start(c, n),
        Motion::WordBackward => t.spec_prev_word_start(c, n),
        Motion::ParagraphBackward => t.spec_prev_paragraph_start(c, n),
        Motion::ParagraphForward => t.spec_next_paragraph_start(c, n),
        Motion::FirstLine => start_of(counted_line(t, count, false)),
        Motion::LastLine => start_of(counted_line(t, count, true)),
    }
}

/// The preferred column after moving by `m` to `target`: vertical motions
/// remember the column reached, line-anchoring motions column `0`, the
/// others forget it.
pub open spec fn preferred_after(m: Motion, target: Position) -> Option<u32> {
    match m {
        Motion::Up | Motion::Down => Some(target.col),
        Motion::LineStart | Motion::ParagraphBackward | Motion::ParagraphForward
        | Motion::FirstLine | Motion::LastLine => Some(0),
        _ => None,
    }
}

/// The far end of the text that an operator covers with motion `m`:
/// vertical motions ignore the preferred column, and `$` covers the last
/// grapheme too.
pub open spec fn operator_end<T: TextOps>(
    t: &T,
    m: Motion,
    c: Position,
    n: u32,
    count: Option<u32>,
) -> Position {
    match m {
        Motion::LineEnd => t.spec_move_right(end_of(t, c.line), 1),
        _ => motion_target(t, m, c, n, count, None),
    }
}

/// `s` ending with a line break: `s` itself when it has one, else `s`
/// followed by one.
pub open spec fn with_newline(s: Seq<char>) -> Seq<char> {
    if s.len() > 0 && s.last() == '\n' {
        s
    } else {
        s.push('\n')
    }
}

/// The commands that announce a move from `from` to `to`: none when the
/// cursor stays.
pub open spec fn moved(from: Position, to: Position) -> Seq<CommandView> {
    if from == to {
        seq![]
    } else {
        seq![CommandView::SetCursor(to)]
    }
}

/// An event that changes nothing but the state.
pub open spec fn quiet(e: EngineView, c: Position, reg: Option<Seq<char>>) -> Outcome {
    Outcome { state: e, cursor: c, commands: seq![], register: reg }
}

/// `e` with its count, pending key and operator dropped.
pub open spec fn settled(e: EngineView) -> EngineView {
    EngineView { count: None, pending: PendingKey::Idle, op_pending: None, ..e }
}

/// Applies operator `op` to the text between the cursor `c` and `end`,
/// whichever comes first.  The cursor goes to the start of that text.  An
/// empty range does nothing.
pub open spec fn compose<T: TextOps>(
    e: EngineView,
    t: &T,
    reg: Option<Seq<char>>,
    c: Position,
    op: Operator,
    end: Position,
) -> Outcome {
    let r = Range::spec_spanning(c, end);
    if r.start == r.end {
        quiet(settled(e), r.start, reg)
    } else {
        match op {
            Operator::Delete => Outcome {
                state: settled(e),
                cursor: r.start,
                commands: seq![CommandView::Delete { range: r }],
                register: Some(t.spec_slice(r)),
            },
            Operator::Yank => Outcome {
                state: settled(e),
                cursor: r.start,
                commands: seq![],
                register: Some(t.spec_slice(r)),
            },
        }
    }
}

/// The whole lines that `dd` / `yy` cover: `count` lines from the cursor's
/// line, at most to the end of the buffer.
pub open spec fn lines_range<T: TextOps>(t: &T, line: u32, count: Option<u32>) -> Range {
    let n = count_or_one(count);
    let last = if line + n - 1 <= last_line(t) {
        line + n - 1
    } else {
        last_line(t) as int
    };
    Range { start: start_of(line), end: start_of(sat(last + 1)) }
}

/// `dd` (Delete) or `yy` (Yank): the lines go to the register, ending with
/// a line break; `dd` removes them and puts the cursor at their start.
pub open spec fn line_op<T: TextOps>(
    e: EngineView,
    t: &T,
    c: Position,
    op: Operator,
) -> Outcome {
    let r = lines_range(t, c.line, e.count);
    let text = with_newline(t.spec_slice(r));
    match op {
        Operator::Delete => Outcome {
            state: settled(e),
            cursor: start_of(c.line),
            commands: seq![CommandView::Delete { range: r }],
            register: Some(text),
        },
        Operator::Yank => Outcome {
            state: settled(e),
            cursor: c,
            commands: seq![],
            register: Some(text),
        },
    }
}

/// Moves by `m`, or, with an operator pending, applies the operator up to
/// where `m` goes.
pub open spec fn apply_motion<T: TextOps>(
    e: EngineView,
    t: &T,
    reg: Option<Seq<char>>,
    c0: Position,
    c: Position,
    m: Motion,
) -> Outcome {
    let n = count_or_one(e.count);
    match e.op_pending {
        None => {
            let p = motion_target(t, m, c, n, e.count, e.preferred_col);
            Outcome {
                state: EngineView { count: None, preferred_col: preferred_after(m, p), ..e },
                cursor: p,
                commands: moved(c0, p),
                register: reg,
            }
        },
        Some(op) => compose(e, t, reg, c, op, operator_end(t, m, c, n, e.count)),
    }
}

/// `f<ch>` / `t<ch>` (`before`): moves to the match (or just before it), or
/// applies the pending operator through the match (or up to it).  A miss
/// drops the operator.
pub open spec fn find_char<T: TextOps>(
    e: EngineView,
    t: &T,
    reg: Option<Seq<char>>,
    c0: Position,
    c: Position,
    before: bool,
    ch: char,
) -> Outcome {
    let e2 = EngineView { count: None, pending: PendingKey::Idle, ..e };
    match t.spec_find_in_line(c, ch, count_or_one(e.count)) {
        None => quiet(settled(e), c, reg),
        Some(m) => match e.op_pending {
            Some(op) => compose(
                e2,
                t,
                reg,
                c,
                op,
                if before {
                    m
                } else {
                    t.spec_move_right(m, 1)
                },
            ),
            None => {
                let p = if before {
                    t.spec_move_left(m, 1)
                } else {
                    m
                };
                Outcome {
                    state: EngineView { preferred_col: None, ..e2 },
                    cursor: p,
                    commands: moved(c0, p),
                    register: reg,
                }
            },
        },
    }
}

/// The commands that paste `text` `n` times, the first at `at`, each next
/// one `dline` lines and `dcol` columns further.
pub open spec fn paste_commands(
    n: nat,
    at: Position,
    dline: nat,
    dcol: nat,
    text: Seq<char>,
) -> Seq<CommandView> {
    Seq::new(
        n,
        |i: int|
            CommandView::InsertText {
                at: Position { line: sat(at.line + i * dline), col: sat(at.col + i * dcol) },
                text,
            },
    )
}

/// `p`: pastes the register `count` times.  Text ending with a line break
/// goes in as whole lines below the cursor's line; other text goes in after
/// the cursor.  The cursor goes to the first pasted text.
pub open spec fn paste<T: TextOps>(
    e: EngineView,
    t: &T,
    reg: Option<Seq<char>>,
    c: Position,
) -> Outcome {
    let n = count_or_one(e.count);
    let e2 = EngineView { count: None, ..e };
    match reg {
        Some(s) if s.len() > 0 => if s.last() == '\n' {
            let at = start_of(sat(c.line + 1));
            Outcome {
                state: e2,
                cursor: at,
                commands: paste_commands(n as nat, at, newline_count(s), 0, s),
                register: reg,
            }
        } else {
            let at = t.spec_move_right(c, 1);
            Outcome {
                state: e2,
                cursor: at,
                commands: paste_commands(n as nat, at, 0, grapheme_count_of(s), s),
                register: reg,
            }
        },
        _ => quiet(e2, c, reg),
    }
}

/// `x`: removes `count` graphemes at the cursor; nothing at the end of a line.
pub open spec fn delete_chars<T: TextOps>(
    e: EngineView,
    t: &T,
    reg: Option<Seq<char>>,
    c: Position,
) -> Outcome {
    let e2 = EngineView { count: None, ..e };
    let end = t.spec_move_right(c, count_or_one(e.count));
    if end == c {
        quiet(e2, c, reg)
    } else {
        Outcome {
            state: e2,
            cursor: c,
            commands: seq![CommandView::Delete { range: Range::spec_spanning(c, end) }],
            register: reg,
        }
    }
}

/// `n` (or `N` with `reverse`): searches again for the last committed
/// query, in its direction (or the other one), wrapping around.
pub open spec fn repeat_search<T: TextOps>(
    e: EngineView,
    t: &T,
    reg: Option<Seq<char>>,
    c0: Position,
    c: Position,
    reverse: bool,
) -> Outcome {
    let e2 = EngineView { count: None, preferred_col: None, ..e };
    match e.last_search {
        None => quiet(e2, c, reg),
        Some(s) => {
            let hit = if s.forward != reverse {
                t.spec_search_forward(c, s.needle, true)
            } else {
                t.spec_search_backward(c, s.needle, true)
            };
            match hit {
                Some(p) => Outcome { state: e2, cursor: p, commands: moved(c0, p), register: reg },
                None => quiet(e2, c, reg),
            }
        },
    }
}

/// The selection between the anchor `a` and the cursor `p`: character-wise
/// from the first to the last, or line-wise from the start of the first
/// line to the end of the last.
pub open spec fn selection_of<T: TextOps>(
    t: &T,
    kind: VisualKind,
    a: Position,
    p: Position,
) -> Selection {
    match kind {
        VisualKind::CharWise => Selection { start: pos_min(a, p), end: pos_max(a, p), kind },
        VisualKind::LineWise => Selection {
            start: start_of(if a.line <= p.line {
                a.line
            } else {
                p.line
            }),
            end: end_of(
                t,
                if a.line <= p.line {
                    p.line
                } else {
                    a.line
                },
            ),
            kind,
        },
    }
}

/// Enters visual mode of `kind` at the cursor.
pub open spec fn enter_visual<T: TextOps>(
    e: EngineView,
    t: &T,
    reg: Option<Seq<char>>,
    c: Position,
    kind: VisualKind,
) -> Outcome {
    Outcome {
        state: EngineView {
            mode: Mode::Visual(kind),
            visual_anchor: Some(c),
            count: None,
            pending: PendingKey::Idle,
            ..e
        },
        cursor: c,
        commands: seq![CommandView::SetSelection(Some(selection_of(t, kind, c, c)))],
        register: reg,
    }
}

/// Enters insert mode with the cursor at `p`, announcing the move when
/// `announce`.
pub open spec fn enter_insert(
    e: EngineView,
    reg: Option<Seq<char>>,
    p: Position,
    preferred_col: Option<u32>,
    announce: bool,
) -> Outcome {
    Outcome {
        state: EngineView {
            mode: Mode::Insert,
            count: None,
            pending: PendingKey::Idle,
            preferred_col,
            ..e
        },
        cursor: p,
        commands: if announce {
            seq![CommandView::SetCursor(p)]
        } else {
            seq![]
        },
        register: reg,
    }
}

/// `Esc` in normal mode: drops the count, pending key, operator and
/// preferred column.
pub open spec fn escape(e: EngineView, c: Position, reg: Option<Seq<char>>) -> Outcome {
    quiet(EngineView { preferred_col: None, ..settled(e) }, c, reg)
}

/// A normal-mode key that is no motion, with no operator pending.
pub open spec fn command<T: TextOps>(
    e: EngineView,
    t: &T,
    reg: Option<Seq<char>>,
    c0: Position,
    c: Position,
    ch: char,
) -> Outcome {
    if ch == 'g' {
        quiet(EngineView { pending: PendingKey::G, ..e }, c, reg)
    } else if ch == 'f' {
        quiet(EngineView { pending: PendingKey::F { before: false }, ..e }, c, reg)
    } else if ch == 't' {
        quiet(EngineView { pending: PendingKey::F { before: true }, ..e }, c, reg)
    } else if ch == 'd' {
        quiet(
            EngineView { pending: PendingKey::D, op_pending: Some(Operator::Delete), ..e },
            c,
            reg,
        )
    } else if ch == 'y' {
        quiet(
            EngineView { pending: PendingKey::Y, op_pending: Some(Operator::Yank), ..e },
            c,
            reg,
        )
    } else if ch == 'x' {
        delete_chars(e, t, reg, c)
    } else if ch == 'p' {
        paste(e, t, reg, c)
    } else if ch == 'v' {
        enter_visual(e, t, reg, c, VisualKind::CharWise)
    } else if ch == 'V' {
        enter_visual(e, t, reg, c, VisualKind::LineWise)
    } else if ch == 'i' {
        enter_insert(e, reg, c, e.preferred_col, false)
    } else if ch == 'a' {
        enter_insert(e, reg, t.spec_move_right(c, 1), e.preferred_col, true)
    } else if ch == 'I' {
        enter_insert(e, reg, start_of(c.line), Some(0), true)
    } else if ch == 'A' {
        enter_insert(e, reg, t.spec_move_right(end_of(t, c.line), 1), e.preferred_col, true)
    } else if ch == '/' {
        quiet(
            EngineView {
                mode: Mode::SearchPrompt,
                search_query: Seq::empty(),
                search_resume_cursor: c,
                count: None,
                pending: PendingKey::Idle,
                ..e
            },
            c,
            reg,
        )
    } else if ch == 'n' {
        repeat_search(e, t, reg, c0, c, false)
    } else if ch == 'N' {
        repeat_search(e, t, reg, c0, c, true)
    } else {
        quiet(e, c, reg)
    }
}

/// A normal-mode key while operator `op` waits for its motion: a motion
/// applies it, its own key again covers whole lines, `g` / `f` / `t` wait
/// for one more key, and any other key cancels it.
pub open spec fn operator_key<T: TextOps>(
    e: EngineView,
    t: &T,
    reg: Option<Seq<char>>,
    c0: Position,
    c: Position,
    op: Operator,
    ch: char,
) -> Outcome {
    match motion_of(ch) {
        Some(m) => apply_motion(e, t, reg, c0, c, m),
        None => if (ch == 'd' && op == Operator::Delete) || (ch == 'y' && op == Operator::Yank) {
            line_op(e, t, c, op)
        } else if ch == 'g' {
            quiet(EngineView { pending: PendingKey::G, ..e }, c, reg)
        } else if ch == 'f' {
            quiet(EngineView { pending: PendingKey::F { before: false }, ..e }, c, reg)
        } else if ch == 't' {
            quiet(EngineView { pending: PendingKey::F { before: true }, ..e }, c, reg)
        } else {
            quiet(settled(e), c, reg)
        },
    }
}

/// A normal-mode key once no multi-key sequence is pending: digits build
/// the count (a leading `0` is the line-start motion), then an operator
/// takes the key as its motion, else the key is a command.
pub open spec fn unpended_key<T: TextOps>(
    e: EngineView,
    t: &T,
    reg: Option<Seq<char>>,
    c0: Position,
    c: Position,
    code: KeyCode,
) -> Outcome {
    match code {
        KeyCode::Char(ch) => if digit_value(ch) is Some && !(ch == '0' && e.count is None) {
            quiet(EngineView { count: Some(pushed_count(e.count, digit_value(ch)->0)), ..e }, c, reg)
        } else {
            match e.op_pending {
                Some(op) => operator_key(e, t, reg, c0, c, op, ch),
                None => match motion_of(ch) {
                    Some(m) => apply_motion(e, t, reg, c0, c, m),
                    None => command(e, t, reg, c0, c, ch),
                },
            }
        },
        KeyCode::Esc => escape(e, c, reg),
        _ => if e.op_pending is Some {
            quiet(settled(e), c, reg)
        } else {
            quiet(e, c, reg)
        },
    }
}

/// A key in normal mode: first as the end of a pending sequence (`gg`,
/// `dd`, `yy`, `f<ch>`, `t<ch>`); otherwise the pending key is dropped.
pub open spec fn normal_key<T: TextOps>(
    e: EngineView,
    t: &T,
    reg: Option<Seq<char>>,
    c0: Position,
    c: Position,
    code: KeyCode,
) -> Outcome {
    let e2 = EngineView { pending: PendingKey::Idle, ..e };
    match (e.pending, code) {
        (PendingKey::G, KeyCode::Char('g')) => apply_motion(e2, t, reg, c0, c, Motion::FirstLine),
        (PendingKey::D, KeyCode::Char('d')) => line_op(e2, t, c, Operator::Delete),
        (PendingKey::Y, KeyCode::Char('y')) => line_op(e2, t, c, Operator::Yank),
        (PendingKey::F { before }, KeyCode::Char(ch)) => find_char(e2, t, reg, c0, c, before, ch),
        _ => unpended_key(e2, t, reg, c0, c, code),
    }
}

/// An event in insert mode: text goes in at the cursor, `Esc` returns to
/// normal mode.
pub open spec fn insert_event(
    e: EngineView,
    reg: Option<Seq<char>>,
    c: Position,
    ev: InputEvent,
) -> Outcome {
    match ev {
        InputEvent::ReceivedChar(ch) => Outcome {
            state: e,
            cursor: Position { line: c.line, col: sat(c.col + 1) },
            commands: seq![CommandView::InsertText { at: c, text: seq![ch] }],
            register: reg,
        },
        InputEvent::Key(k) => if k.code == KeyCode::Esc {
            quiet(EngineView { mode: Mode::Normal, ..e }, c, reg)
        } else {
            quiet(e, c, reg)
        },
    }
}

/// Leaves visual mode, clearing the selection.
pub open spec fn leave_visual(
    e: EngineView,
    c: Position,
    reg: Option<Seq<char>>,
    commands: Seq<CommandView>,
) -> Outcome {
    Outcome {
        state: EngineView { mode: Mode::Normal, visual_anchor: None, ..settled(e) },
        cursor: c,
        commands: commands.push(CommandView::SetSelection(None)),
        register: reg,
    }
}

/// The text that a visual selection covers: character-wise up to and
/// including the grapheme at its last end, line-wise whole lines with their
/// line breaks.
pub open spec fn visual_range<T: TextOps>(
    t: &T,
    kind: VisualKind,
    a: Position,
    c: Position,
) -> Range {
    match kind {
        VisualKind::CharWise => Range::spec_spanning(
            pos_min(a, c),
            t.spec_move_right(pos_max(a, c), 1),
        ),
        VisualKind::LineWise => {
            let low = if a.line <= c.line {
                a.line
            } else {
                c.line
            };
            let high = if a.line <= c.line {
                c.line
            } else {
                a.line
            };
            Range { start: start_of(low), end: start_of(sat(high + 1)) }
        },
    }
}

/// `d` (with `delete`) or `y` in visual mode: the selected text goes to the
/// register (whole lines ending with a line break), `d` removes it, and
/// visual mode ends with the cursor at the start of that text.
pub open spec fn visual_operator<T: TextOps>(
    e: EngineView,
    t: &T,
    reg: Option<Seq<char>>,
    c: Position,
    kind: VisualKind,
    delete: bool,
) -> Outcome {
    let r = visual_range(t, kind, e.visual_anchor->0, c);
    let text = match kind {
        VisualKind::CharWise => t.spec_slice(r),
        VisualKind::LineWise => with_newline(t.spec_slice(r)),
    };
    if r.start == r.end {
        leave_visual(e, r.start, reg, seq![])
    } else {
        leave_visual(
            e,
            r.start,
            Some(text),
            if delete {
                seq![CommandView::Delete { range: r }]
            } else {
                seq![]
            },
        )
    }
}

/// Moves the cursor by `m` in visual mode and reselects from the anchor.
pub open spec fn visual_motion<T: TextOps>(
    e: EngineView,
    t: &T,
    reg: Option<Seq<char>>,
    c: Position,
    kind: VisualKind,
    m: Motion,
) -> Outcome {
    let p = motion_target(t, m, c, count_or_one(e.count), e.count, e.preferred_col);
    Outcome {
        state: EngineView { count: None, preferred_col: preferred_after(m, p), ..e },
        cursor: p,
        commands: seq![
            CommandView::SetCursor(p),
            CommandView::SetSelection(Some(selection_of(t, kind, e.visual_anchor->0, p))),
        ],
        register: reg,
    }
}

/// A key in visual mode, once a pending `g` that it does not complete is
/// dropped.
pub open spec fn visual_unpended<T: TextOps>(
    e: EngineView,
    t: &T,
    reg: Option<Seq<char>>,
    c: Position,
    kind: VisualKind,
    code: KeyCode,
) -> Outcome {
    match code {
        KeyCode::Esc => leave_visual(e, c, reg, seq![]),
        KeyCode::Char(ch) => if digit_value(ch) is Some && !(ch == '0' && e.count is None) {
            quiet(EngineView { count: Some(pushed_count(e.count, digit_value(ch)->0)), ..e }, c, reg)
        } else {
            match motion_of(ch) {
                Some(m) => visual_motion(e, t, reg, c, kind, m),
                None => if ch == 'g' {
                    quiet(EngineView { pending: PendingKey::G, ..e }, c, reg)
                } else if ch == 'v' {
                    if kind == VisualKind::CharWise {
                        leave_visual(e, c, reg, seq![])
                    } else {
                        switch_visual(e, t, reg, c, VisualKind::CharWise)
                    }
                } else if ch == 'V' {
                    if kind == VisualKind::LineWise {
                        leave_visual(e, c, reg, seq![])
                    } else {
                        switch_visual(e, t, reg, c, VisualKind::LineWise)
                    }
                } else if ch == 'd' {
                    visual_operator(e, t, reg, c, kind, true)
                } else if ch == 'y' {
                    visual_operator(e, t, reg, c, kind, false)
                } else {
                    quiet(e, c, reg)
                },
            }
        },
        _ => quiet(e, c, reg),
    }
}

/// Switches the kind of visual selection, keeping the anchor.
pub open spec fn switch_visual<T: TextOps>(
    e: EngineView,
    t: &T,
    reg: Option<Seq<char>>,
    c: Position,
    kind: VisualKind,
) -> Outcome {
    Outcome {
        state: EngineView { mode: Mode::Visual(kind), ..e },
        cursor: c,
        commands: seq![
            CommandView::SetSelection(Some(selection_of(t, kind, e.visual_anchor->0, c))),
        ],
        register: reg,
    }
}

/// A key in visual mode of `kind`.
pub open spec fn visual_key<T: TextOps>(
    e: EngineView,
    t: &T,
    reg: Option<Seq<char>>,
    c: Position,
    kind: VisualKind,
    code: KeyCode,
) -> Outcome {
    let e2 = EngineView { pending: PendingKey::Idle, ..e };
    if e.pending == PendingKey::G && code == KeyCode::Char('g') {
        visual_motion(e2, t, reg, c, kind, Motion::FirstLine)
    } else {
        visual_unpended(e2, t, reg, c, kind, code)
    }
}

/// The query without its last grapheme cluster.
pub open spec fn query_backspaced(q: Seq<char>) -> Seq<char> {
    q.take(q.len() - last_grapheme_len_of(q))
}

/// An event in the search prompt: text extends the query, Backspace takes
/// back a grapheme, Enter searches forward (wrapping) and remembers the
/// query on a hit, Esc returns to where the prompt opened.
pub open spec fn search_event<T: TextOps>(
    e: EngineView,
    t: &T,
    reg: Option<Seq<char>>,
    c0: Position,
    c: Position,
    ev: InputEvent,
) -> Outcome {
    let closed = EngineView { mode: Mode::Normal, search_query: Seq::empty(), ..e };
    match ev {
        InputEvent::ReceivedChar(ch) => quiet(
            EngineView { search_query: e.search_query.push(ch), ..e },
            c,
            reg,
        ),
        InputEvent::Key(k) => match k.code {
            KeyCode::Backspace => quiet(
                EngineView { search_query: query_backspaced(e.search_query), ..e },
                c,
                reg,
            ),
            KeyCode::Enter => if e.search_query.len() == 0 {
                quiet(closed, c, reg)
            } else {
                match t.spec_search_forward(c, e.search_query, true) {
                    Some(p) => Outcome {
                        state: EngineView {
                            last_search: Some(SearchView { needle: e.search_query, forward: true }),
                            ..closed
                        },
                        cursor: p,
                        commands: moved(c0, p),
                        register: reg,
                    },
                    None => quiet(closed, c, reg),
                }
            },
            KeyCode::Esc => {
                let p = clamped(t, e.search_resume_cursor);
                Outcome { state: closed, cursor: p, commands: moved(c0, p), register: reg }
            },
            _ => quiet(e, c, reg),
        },
    }
}

/// The transition of one event: the cursor is first clamped to the buffer,
/// then the event is handled by the current mode.
pub open spec fn step<T: TextOps>(
    e: EngineView,
    t: &T,
    reg: Option<Seq<char>>,
    c0: Position,
    ev: InputEvent,
) -> Outcome {
    let c = clamped(t, c0);
    match e.mode {
        Mode::Normal => match ev {
            InputEvent::Key(k) => normal_key(e, t, reg, c0, c, k.code),
            InputEvent::ReceivedChar(_) => quiet(e, c, reg),
        },
        Mode::Insert => insert_event(e, reg, c, ev),
        Mode::Visual(kind) => match ev {
            InputEvent::Key(k) => visual_key(e, t, reg, c, kind, k.code),
            InputEvent::ReceivedChar(_) => quiet(e, c, reg),
        },
        Mode::SearchPrompt => search_event(e, t, reg, c0, c, ev),
    }
}

/// The events `evs` handled one after the other from state `e`, cursor
/// `c` and register `reg`: the last state, cursor and register, and all the
/// commands in order.
pub open spec fn run<T: TextOps>(
    e: EngineView,
    t: &T,
    reg: Option<Seq<char>>,
    c: Position,
    evs: Seq<InputEvent>,
) -> Outcome
    decreases evs.len(),
{
    if evs.len() == 0 {
        quiet(e, c, reg)
    } else {
        let first = step(e, t, reg, c, evs[0]);
        let rest = run(first.state, t, first.register, first.cursor, evs.drop_first());
        Outcome { commands: first.commands + rest.commands, ..rest }
    }
}

/// Whether some command changes the text.
pub open spec fn has_edit(cmds: Seq<CommandView>) -> bool {
    exists|i: int|
        0 <= i < cmds.len() && (cmds[i] is Delete || cmds[i] is InsertText)
}

/// The key event of `code` with modifiers `mods`.
pub open spec fn key(code: KeyCode, mods: Modifiers) -> InputEvent {
    InputEvent::Key(KeyEvent { code, mods })
}

} // verus!
