//! The engine: the modal state and its event handler.
use vstd::prelude::*;

use crate::key::{InputEvent, KeyCode};
use crate::laws::lemma_step_wf;
use crate::machine::{
    apply_motion, command, compose, counted_line, delete_chars, digit_value, enter_insert,
    enter_visual, find_char, insert_event, leave_visual, line_op, lines_range, motion_of,
    motion_target, moved, normal_key, operator_end, operator_key, paste, paste_commands,
    preferred_after, pushed_count, query_backspaced, repeat_search, sat, search_event,
    selection_of, settled, step, switch_visual, unpended_key, visual_key, visual_motion,
    visual_operator, visual_range, visual_unpended, with_newline, EngineView, Motion, Operator,
    Outcome, PendingKey, SearchView, MAX_COUNT,
};
use crate::text::{
    char_to_string, count_newlines, grapheme_count, grapheme_count_of, last_grapheme_len,
    newline_count,
};
use crate::traits::{last_line, Clipboard, TextOps};
use crate::types::{commands_view, Command, CommandView, Mode, Position, Range, Selection, VisualKind};

verus! {

/// The numeric prefix typed so far.
#[derive(Debug, Clone)]
struct Counts {
    current: Option<u32>,
}

impl Counts {
    /// Appends digit `d` to the count, capped at [`MAX_COUNT`].
    fn push_digit(&mut self, d: u32)
        requires
            d <= 9,
        ensures
            final(self).current == Some(pushed_count(old(self).current, d)),
    {
        let base: u64 = match self.current {
            Some(n) => n as u64,
            None => 0,
        };
        let next: u64 = base * 10 + d as u64;
        let capped: u32 = if next > MAX_COUNT as u64 {
            MAX_COUNT
        } else {
            next as u32
        };
        self.current = Some(capped);
    }

    /// Takes the count, or `default_` when there is none; at least one.
    fn take_or(&mut self, default_: u32) -> (r: u32)
        ensures
            final(self).current is None,
            r == (match old(self).current {
                Some(n) => if n >= 1 {
                    n
                } else {
                    1
                },
                None => if default_ >= 1 {
                    default_
                } else {
                    1
                },
            }),
    {
        let v = match self.current {
            Some(n) => n,
            None => default_,
        };
        self.current = None;
        if v >= 1 {
            v
        } else {
            1
        }
    }
}

/// The last committed search.
#[derive(Debug, Clone)]
struct LastSearch {
    needle: String,
    forward: bool,
}

/// A modal keystroke engine for one editable surface.
#[derive(Debug, Clone)]
pub struct Engine {
    mode: Mode,
    preferred_col: Option<u32>,
    counts: Counts,
    pending: PendingKey,
    op_pending: Option<Operator>,
    visual_anchor: Option<Position>,
    search_query: String,
    last_search: Option<LastSearch>,
    search_resume_cursor: Position,
}

impl View for Engine {
    type V = EngineView;

    closed spec fn view(&self) -> EngineView {
        EngineView {
            mode: self.mode,
            preferred_col: self.preferred_col,
            count: self.counts.current,
            pending: self.pending,
            op_pending: self.op_pending,
            visual_anchor: self.visual_anchor,
            search_query: self.search_query@,
            last_search: match self.last_search {
                Some(s) => Some(SearchView { needle: s.needle@, forward: s.forward }),
                None => None,
            },
            search_resume_cursor: self.search_resume_cursor,
        }
    }
}

/// What the engine shows of itself, for status lines.
#[derive(Debug, Clone)]
pub struct EngineSnapshot {
    /// The current mode.
    pub mode: Mode,
    /// The sticky column of vertical motions.
    pub preferred_col: Option<u32>,
    /// The numeric prefix typed so far.
    pub pending_count: Option<u32>,
}

/// Builds an engine, choosing its initial mode.
pub struct EngineBuilder {
    mode: Mode,
}

impl EngineBuilder {
    /// The mode the engine will start in.
    pub closed spec fn spec_mode(&self) -> Mode {
        self.mode
    }

    /// Sets the initial mode.
    pub fn mode(self, mode: Mode) -> (r: Self)
        ensures
            r.spec_mode() == mode,
    {
        EngineBuilder { mode }
    }

    /// An engine in the chosen mode with nothing pending; a visual mode is
    /// anchored at the origin.
    pub fn build(self) -> (r: Engine)
        ensures
            r@ == EngineView::initial(self.spec_mode()),
            r@.wf(),
    {
        let anchor = match self.mode {
            Mode::Visual(_) => Some(Position { line: 0, col: 0 }),
            _ => None,
        };
        Engine {
            mode: self.mode,
            preferred_col: None,
            counts: Counts { current: None },
            pending: PendingKey::Idle,
            op_pending: None,
            visual_anchor: anchor,
            search_query: String::new(),
            last_search: None,
            search_resume_cursor: Position { line: 0, col: 0 },
        }
    }
}

impl Default for EngineBuilder {
    fn default() -> (r: Self)
        ensures
            r.spec_mode() == Mode::Normal,
    {
        EngineBuilder { mode: Mode::Normal }
    }
}

impl Default for Engine {
    fn default() -> (r: Self)
        ensures
            r@ == EngineView::initial(Mode::Normal),
    {
        Engine::new()
    }
}

/// The result `r` and the register's text `reg` after an event are those
/// that outcome `o` gives, and the engine is left in state `st`.
pub open spec fn produced(
    o: Outcome,
    st: EngineView,
    r: (Position, Vec<Command>),
    reg: Option<Seq<char>>,
) -> bool {
    &&& st == o.state
    &&& r.0 == o.cursor
    &&& commands_view(r.1@) == o.commands
    &&& reg == o.register
}

/// No command.
fn no_commands() -> (r: Vec<Command>)
    ensures
        commands_view(r@) == Seq::<CommandView>::empty(),
{
    let v: Vec<Command> = Vec::new();
    proof {
        assert(commands_view(v@) =~= Seq::<CommandView>::empty());
    }
    v
}

/// A single command.
fn single(cmd: Command) -> (r: Vec<Command>)
    ensures
        commands_view(r@) == seq![cmd@],
{
    let mut v: Vec<Command> = Vec::new();
    v.push(cmd);
    proof {
        assert(commands_view(v@) =~= seq![cmd@]);
    }
    v
}

/// Two commands, in order.
fn pair(first: Command, second: Command) -> (r: Vec<Command>)
    ensures
        commands_view(r@) == seq![first@, second@],
{
    let mut v: Vec<Command> = Vec::new();
    v.push(first);
    v.push(second);
    proof {
        assert(commands_view(v@) =~= seq![first@, second@]);
    }
    v
}

/// Announces a move of the cursor from `from` to `to`, if it moved.
fn moved_commands(from: Position, to: Position) -> (r: Vec<Command>)
    ensures
        commands_view(r@) == moved(from, to),
{
    if from == to {
        no_commands()
    } else {
        single(Command::SetCursor(to))
    }
}

/// `x` capped at `u32::MAX`.
fn sat_usize(x: usize) -> (r: u32)
    ensures
        r == sat(x as int),
{
    if x > u32::MAX as usize {
        u32::MAX
    } else {
        x as u32
    }
}

/// The value of a digit character.
fn digit_of(c: char) -> (r: Option<u32>)
    ensures
        r == digit_value(c),
        r matches Some(d) ==> d <= 9,
{
    if '0' <= c && c <= '9' {
        Some(c as u32 - '0' as u32)
    } else {
        None
    }
}

/// The motion that a key names by itself.
fn motion_for(c: char) -> (r: Option<Motion>)
    ensures
        r == motion_of(c),
{
    if c == 'h' {
        Some(Motion::Left)
    } else if c == 'l' {
        Some(Motion::Right)
    } else if c == 'k' {
        Some(Motion::Up)
    } else if c == 'j' {
        Some(Motion::Down)
    } else if c == '0' {
        Some(Motion::LineStart)
    } else if c == '$' {
        Some(Motion::LineEnd)
    } else if c == 'w' {
        Some(Motion::WordForward)
    } else if c == 'b' {
        Some(Motion::WordBackward)
    } else if c == '{' {
        Some(Motion::ParagraphBackward)
    } else if c == '}' {
        Some(Motion::ParagraphForward)
    } else if c == 'G' {
        Some(Motion::LastLine)
    } else {
        None
    }
}

/// The index of the last line of the buffer.
fn last_line_of_text<T: TextOps>(text: &T) -> (r: u32)
    ensures
        r == last_line(text),
{
    let n = text.line_count();
    if n == 0 {
        0
    } else {
        n - 1
    }
}

/// The line that `gg` (or, with `to_last`, `G`) goes to.
fn line_for_count<T: TextOps>(text: &T, count: Option<u32>, to_last: bool) -> (r: u32)
    ensures
        r == counted_line(text, count, to_last),
{
    let last = last_line_of_text(text);
    match count {
        Some(n) if n >= 1 => if n - 1 <= last {
            n - 1
        } else {
            last
        },
        _ => if to_last {
            last
        } else {
            0
        },
    }
}

/// Where a motion goes.
fn target_of<T: TextOps>(
    text: &T,
    m: Motion,
    c: Position,
    n: u32,
    count: Option<u32>,
    pref: Option<u32>,
) -> (r: Position)
    ensures
        r == motion_target(text, m, c, n, count, pref),
{
    match m {
        Motion::Left => text.move_left(c, n),
        Motion::Right => text.move_right(c, n),
        Motion::Up => text.move_up(c, n, pref),
        Motion::Down => text.move_down(c, n, pref),
        Motion::LineStart => text.line_start(c.line),
        Motion::LineEnd => text.line_end(c.line),
        Motion::WordForward => text.next_word_start(c, n),
        Motion::WordBackward => text.prev_word_start(c, n),
        Motion::ParagraphBackward => text.prev_paragraph_start(c, n),
        Motion::ParagraphForward => text.next_paragraph_start(c, n),
        Motion::FirstLine => text.line_start(line_for_count(text, count, false)),
        Motion::LastLine => text.line_start(line_for_count(text, count, true)),
    }
}

/// The preferred column after moving by `m` to `p`.
fn preferred_for(m: Motion, p: Position) -> (r: Option<u32>)
    ensures
        r == preferred_after(m, p),
{
    match m {
        Motion::Up | Motion::Down => Some(p.col),
        Motion::LineStart | Motion::ParagraphBackward | Motion::ParagraphForward
        | Motion::FirstLine | Motion::LastLine => Some(0),
        _ => None,
    }
}

/// Where an operator's text ends for motion `m`.
fn operator_end_of<T: TextOps>(
    text: &T,
    m: Motion,
    c: Position,
    n: u32,
    count: Option<u32>,
) -> (r: Position)
    ensures
        r == operator_end(text, m, c, n, count),
{
    match m {
        Motion::LineEnd => {
            let e = text.line_end(c.line);
            text.move_right(e, 1)
        },
        _ => target_of(text, m, c, n, count, None),
    }
}

/// Whether `s` ends with a line break.
fn ends_with_newline(s: &str) -> (r: bool)
    ensures
        r == (s@.len() > 0 && s@.last() == '\n'),
{
    let len = s.unicode_len();
    if len == 0 {
        false
    } else {
        s.get_char(len - 1) == '\n'
    }
}

/// `s` with a line break appended unless it ends with one.
fn newline_terminated(s: String) -> (r: String)
    ensures
        r@ == with_newline(s@),
{
    if ends_with_newline(s.as_str()) {
        s
    } else {
        let mut t = s;
        t.append("\n");
        proof {
            reveal_strlit("\n");
        }
        t
    }
}

impl Engine {
    /// An engine in normal mode with nothing pending.
    pub fn new() -> (r: Self)
        ensures
            r@ == EngineView::initial(Mode::Normal),
            r@.wf(),
    {
        EngineBuilder { mode: Mode::Normal }.build()
    }

    /// The mode, the preferred column and the count typed so far.
    pub fn snapshot(&self) -> (r: EngineSnapshot)
        ensures
            r.mode == self@.mode,
            r.preferred_col == self@.preferred_col,
            r.pending_count == self@.count,
    {
        EngineSnapshot {
            mode: self.mode,
            preferred_col: self.preferred_col,
            pending_count: self.counts.current,
        }
    }

    /// Drops the pending key.
    fn clear_pending(&mut self)
        ensures
            final(self)@ == (EngineView { pending: PendingKey::Idle, ..old(self)@ }),
    {
        self.pending = PendingKey::Idle;
    }

    /// Drops the pending operator.
    fn clear_op(&mut self)
        ensures
            final(self)@ == (EngineView { op_pending: None, ..old(self)@ }),
    {
        self.op_pending = None;
    }

    /// The command that removes the text between `start` and `end`,
    /// whichever comes first.
    fn apply_delete(&self, start: Position, end: Position) -> (r: Vec<Command>)
        ensures
            commands_view(r@) == seq![CommandView::Delete { range: Range::spec_spanning(start, end) }],
    {
        let range = Range::spanning(start, end);
        single(Command::Delete { range })
    }

    /// Drops the count, the pending key and the operator.
    fn settle(&mut self)
        ensures
            final(self)@ == settled(old(self)@),
    {
        self.counts.current = None;
        self.pending = PendingKey::Idle;
        self.op_pending = None;
    }

    /// Applies `op` to the text between the cursor `c` and `end`.
    fn compose<T: TextOps, C: Clipboard>(
        &mut self,
        text: &T,
        clipboard: &mut C,
        c: Position,
        op: Operator,
        end: Position,
    ) -> (r: (Position, Vec<Command>))
        ensures
            produced(
                compose(old(self)@, text, old(clipboard).register(), c, op, end),
                final(self)@,
                r,
                final(clipboard).register(),
            ),
    {
        let range = Range::spanning(c, end);
        self.settle();
        if range.start == range.end {
            return (range.start, no_commands());
        }
        let slice = text.slice_to_string(range);
        clipboard.set(slice);
        match op {
            Operator::Delete => (range.start, self.apply_delete(c, end)),
            Operator::Yank => (range.start, no_commands()),
        }
    }

    /// `dd` / `yy`: whole lines from the cursor's line.
    fn line_op<T: TextOps, C: Clipboard>(
        &mut self,
        text: &T,
        clipboard: &mut C,
        c: Position,
        op: Operator,
    ) -> (r: (Position, Vec<Command>))
        requires
            c.line <= last_line(text),
        ensures
            produced(
                line_op(old(self)@, text, c, op),
                final(self)@,
                r,
                final(clipboard).register(),
            ),
    {
        let n = self.counts.take_or(1);
        let last = last_line_of_text(text);
        let end_line: u32 = if (c.line as u64) + (n as u64) - 1 <= last as u64 {
            c.line + n - 1
        } else {
            last
        };
        let end_next: u32 = if end_line < u32::MAX {
            end_line + 1
        } else {
            u32::MAX
        };
        let start = text.line_start(c.line);
        let stop = text.line_start(end_next);
        let range = Range { start, end: stop };
        proof {
            assert(range == lines_range(text, c.line, old(self)@.count));
        }
        let slice = newline_terminated(text.slice_to_string(range));
        clipboard.set(slice);
        self.settle();
        match op {
            Operator::Delete => (start, single(Command::Delete { range })),
            Operator::Yank => (c, no_commands()),
        }
    }

    /// Moves by `m`, or applies the pending operator up to where `m` goes.
    fn apply_motion<T: TextOps, C: Clipboard>(
        &mut self,
        text: &T,
        clipboard: &mut C,
        c0: Position,
        c: Position,
        m: Motion,
    ) -> (r: (Position, Vec<Command>))
        ensures
            produced(
                apply_motion(old(self)@, text, old(clipboard).register(), c0, c, m),
                final(self)@,
                r,
                final(clipboard).register(),
            ),
    {
        let count = self.counts.current;
        let n = self.counts.take_or(1);
        match self.op_pending {
            None => {
                let p = target_of(text, m, c, n, count, self.preferred_col);
                self.preferred_col = preferred_for(m, p);
                (p, moved_commands(c0, p))
            },
            Some(op) => {
                let end = operator_end_of(text, m, c, n, count);
                self.counts.current = count;
                self.compose(text, clipboard, c, op, end)
            },
        }
    }

    /// `f<ch>` / `t<ch>`.
    fn find_char<T: TextOps, C: Clipboard>(
        &mut self,
        text: &T,
        clipboard: &mut C,
        c0: Position,
        c: Position,
        before: bool,
        ch: char,
    ) -> (r: (Position, Vec<Command>))
        ensures
            produced(
                find_char(old(self)@, text, old(clipboard).register(), c0, c, before, ch),
                final(self)@,
                r,
                final(clipboard).register(),
            ),
    {
        let n = self.counts.take_or(1);
        self.clear_pending();
        match text.find_in_line(c, ch, before, n) {
            None => {
                self.clear_op();
                (c, no_commands())
            },
            Some(m) => match self.op_pending {
                Some(op) => {
                    let end = if before {
                        m
                    } else {
                        text.move_right(m, 1)
                    };
                    self.compose(text, clipboard, c, op, end)
                },
                None => {
                    let p = if before {
                        text.move_left(m, 1)
                    } else {
                        m
                    };
                    self.preferred_col = None;
                    (p, moved_commands(c0, p))
                },
            },
        }
    }

    /// `x`.
    fn delete_chars<T: TextOps>(&mut self, text: &T, c: Position) -> (r: (Position, Vec<Command>))
        ensures
            forall|reg: Option<Seq<char>>|
                produced(#[trigger] delete_chars(old(self)@, text, reg, c), final(self)@, r, reg),
    {
        let n = self.counts.take_or(1);
        let end = text.move_right(c, n);
        if end == c {
            (c, no_commands())
        } else {
            (c, self.apply_delete(c, end))
        }
    }

    /// `p`.
    fn paste<T: TextOps, C: Clipboard>(
        &mut self,
        text: &T,
        clipboard: &mut C,
        c: Position,
    ) -> (r: (Position, Vec<Command>))
        requires
            c.line <= last_line(text),
        ensures
            produced(
                paste(old(self)@, text, old(clipboard).register(), c),
                final(self)@,
                r,
                final(clipboard).register(),
            ),
    {
        let n = self.counts.take_or(1);
        match clipboard.get() {
            Some(s) => {
                if s.as_str().unicode_len() == 0 {
                    return (c, no_commands());
                }
                if ends_with_newline(s.as_str()) {
                    let k = count_newlines(s.as_str());
                    let at = text.line_start(c.line + 1);
                    let cmds = paste_inserts(&s, n, at, sat_usize(k), 0);
                    proof {
                        lemma_capped_step(n as nat, at, newline_count(s@), 0, s@);
                    }
                    (at, cmds)
                } else {
                    let g = grapheme_count(s.as_str());
                    let at = text.move_right(c, 1);
                    let cmds = paste_inserts(&s, n, at, 0, sat_usize(g));
                    proof {
                        lemma_capped_step(n as nat, at, 0, grapheme_count_of(s@), s@);
                    }
                    (at, cmds)
                }
            },
            None => (c, no_commands()),
        }
    }

    /// `n` / `N` (`reverse`).
    fn repeat_search<T: TextOps>(
        &mut self,
        text: &T,
        c0: Position,
        c: Position,
        reverse: bool,
    ) -> (r: (Position, Vec<Command>))
        ensures
            forall|reg: Option<Seq<char>>|
                produced(
                    #[trigger] repeat_search(old(self)@, text, reg, c0, c, reverse),
                    final(self)@,
                    r,
                    reg,
                ),
    {
        self.counts.current = None;
        self.preferred_col = None;
        match &self.last_search {
            None => (c, no_commands()),
            Some(s) => {
                let hit = if s.forward != reverse {
                    text.search_forward(c, s.needle.as_str(), true)
                } else {
                    text.search_backward(c, s.needle.as_str(), true)
                };
                match hit {
                    Some(p) => (p, moved_commands(c0, p)),
                    None => (c, no_commands()),
                }
            },
        }
    }

    /// `v` / `V`: enters visual mode of `kind` at the cursor.
    fn enter_visual<T: TextOps>(&mut self, text: &T, c: Position, kind: VisualKind) -> (r: (
        Position,
        Vec<Command>,
    ))
        ensures
            forall|reg: Option<Seq<char>>|
                produced(#[trigger] enter_visual(old(self)@, text, reg, c, kind), final(self)@, r, reg),
    {
        self.mode = Mode::Visual(kind);
        self.visual_anchor = Some(c);
        self.counts.current = None;
        self.clear_pending();
        let sel = select(text, kind, c, c);
        (c, single(Command::SetSelection(Some(sel))))
    }

    /// Enters insert mode with the cursor at `p`.
    fn enter_insert(&mut self, p: Position, preferred_col: Option<u32>, announce: bool) -> (r: (
        Position,
        Vec<Command>,
    ))
        ensures
            forall|reg: Option<Seq<char>>|
                produced(
                    #[trigger] enter_insert(old(self)@, reg, p, preferred_col, announce),
                    final(self)@,
                    r,
                    reg,
                ),
    {
        self.mode = Mode::Insert;
        self.counts.current = None;
        self.clear_pending();
        self.preferred_col = preferred_col;
        if announce {
            (p, single(Command::SetCursor(p)))
        } else {
            (p, no_commands())
        }
    }

    /// A normal-mode key that is no motion, with no operator pending.
    fn command<T: TextOps, C: Clipboard>(
        &mut self,
        text: &T,
        clipboard: &mut C,
        c0: Position,
        c: Position,
        ch: char,
    ) -> (r: (Position, Vec<Command>))
        requires
            c.line <= last_line(text),
        ensures
            produced(
                command(old(self)@, text, old(clipboard).register(), c0, c, ch),
                final(self)@,
                r,
                final(clipboard).register(),
            ),
    {
        if ch == 'g' {
            self.pending = PendingKey::G;
            (c, no_commands())
        } else if ch == 'f' {
            self.pending = PendingKey::F { before: false };
            (c, no_commands())
        } else if ch == 't' {
            self.pending = PendingKey::F { before: true };
            (c, no_commands())
        } else if ch == 'd' {
            self.pending = PendingKey::D;
            self.op_pending = Some(Operator::Delete);
            (c, no_commands())
        } else if ch == 'y' {
            self.pending = PendingKey::Y;
            self.op_pending = Some(Operator::Yank);
            (c, no_commands())
        } else if ch == 'x' {
            self.delete_chars(text, c)
        } else if ch == 'p' {
            self.paste(text, clipboard, c)
        } else if ch == 'v' {
            self.enter_visual(text, c, VisualKind::CharWise)
        } else if ch == 'V' {
            self.enter_visual(text, c, VisualKind::LineWise)
        } else if ch == 'i' {
            let pc = self.preferred_col;
            self.enter_insert(c, pc, false)
        } else if ch == 'a' {
            let p = text.move_right(c, 1);
            let pc = self.preferred_col;
            self.enter_insert(p, pc, true)
        } else if ch == 'I' {
            let p = text.line_start(c.line);
            self.enter_insert(p, Some(0), true)
        } else if ch == 'A' {
            let e = text.line_end(c.line);
            let p = text.move_right(e, 1);
            let pc = self.preferred_col;
            self.enter_insert(p, pc, true)
        } else if ch == '/' {
            self.mode = Mode::SearchPrompt;
            self.search_query = String::new();
            self.search_resume_cursor = c;
            self.counts.current = None;
            self.clear_pending();
            (c, no_commands())
        } else if ch == 'n' {
            self.repeat_search(text, c0, c, false)
        } else if ch == 'N' {
            self.repeat_search(text, c0, c, true)
        } else {
            (c, no_commands())
        }
    }

    /// A normal-mode key while operator `op` waits for its motion.
    fn operator_key<T: TextOps, C: Clipboard>(
        &mut self,
        text: &T,
        clipboard: &mut C,
        c0: Position,
        c: Position,
        op: Operator,
        ch: char,
    ) -> (r: (Position, Vec<Command>))
        requires
            c.line <= last_line(text),
        ensures
            produced(
                operator_key(old(self)@, text, old(clipboard).register(), c0, c, op, ch),
                final(self)@,
                r,
                final(clipboard).register(),
            ),
    {
        match motion_for(ch) {
            Some(m) => self.apply_motion(text, clipboard, c0, c, m),
            None => {
                if (ch == 'd' && op == Operator::Delete) || (ch == 'y' && op == Operator::Yank) {
                    self.line_op(text, clipboard, c, op)
                } else if ch == 'g' {
                    self.pending = PendingKey::G;
                    (c, no_commands())
                } else if ch == 'f' {
                    self.pending = PendingKey::F { before: false };
                    (c, no_commands())
                } else if ch == 't' {
                    self.pending = PendingKey::F { before: true };
                    (c, no_commands())
                } else {
                    self.settle();
                    (c, no_commands())
                }
            },
        }
    }

    /// A normal-mode key once no multi-key sequence is pending.
    fn unpended_key<T: TextOps, C: Clipboard>(
        &mut self,
        text: &T,
        clipboard: &mut C,
        c0: Position,
        c: Position,
        code: KeyCode,
    ) -> (r: (Position, Vec<Command>))
        requires
            c.line <= last_line(text),
        ensures
            produced(
                unpended_key(old(self)@, text, old(clipboard).register(), c0, c, code),
                final(self)@,
                r,
                final(clipboard).register(),
            ),
    {
        match code {
            KeyCode::Char(ch) => {
                if let Some(d) = digit_of(ch) {
                    if !(ch == '0' && self.counts.current.is_none()) {
                        self.counts.push_digit(d);
                        return (c, no_commands());
                    }
                }
                match self.op_pending {
                    Some(op) => self.operator_key(text, clipboard, c0, c, op, ch),
                    None => match motion_for(ch) {
                        Some(m) => self.apply_motion(text, clipboard, c0, c, m),
                        None => self.command(text, clipboard, c0, c, ch),
                    },
                }
            },
            KeyCode::Esc => {
                self.settle();
                self.preferred_col = None;
                (c, no_commands())
            },
            _ => {
                if self.op_pending.is_some() {
                    self.settle();
                }
                (c, no_commands())
            },
        }
    }

    /// A key in normal mode.
    fn normal_key<T: TextOps, C: Clipboard>(
        &mut self,
        text: &T,
        clipboard: &mut C,
        c0: Position,
        c: Position,
        code: KeyCode,
    ) -> (r: (Position, Vec<Command>))
        requires
            c.line <= last_line(text),
        ensures
            produced(
                normal_key(old(self)@, text, old(clipboard).register(), c0, c, code),
                final(self)@,
                r,
                final(clipboard).register(),
            ),
    {
        let pending = self.pending;
        self.clear_pending();
        match (pending, code) {
            (PendingKey::G, KeyCode::Char('g')) => self.apply_motion(
                text,
                clipboard,
                c0,
                c,
                Motion::FirstLine,
            ),
            (PendingKey::D, KeyCode::Char('d')) => self.line_op(text, clipboard, c, Operator::Delete),
            (PendingKey::Y, KeyCode::Char('y')) => self.line_op(text, clipboard, c, Operator::Yank),
            (PendingKey::F { before }, KeyCode::Char(ch)) => self.find_char(
                text,
                clipboard,
                c0,
                c,
                before,
                ch,
            ),
            _ => self.unpended_key(text, clipboard, c0, c, code),
        }
    }

    /// An event in insert mode.
    fn insert_event(&mut self, c: Position, input: InputEvent) -> (r: (Position, Vec<Command>))
        ensures
            forall|reg: Option<Seq<char>>|
                produced(#[trigger] insert_event(old(self)@, reg, c, input), final(self)@, r, reg),
    {
        match input {
            InputEvent::ReceivedChar(ch) => {
                let cmd = Command::InsertText { at: c, text: char_to_string(ch) };
                let next = Position { line: c.line, col: c.col.saturating_add(1) };
                (next, single(cmd))
            },
            InputEvent::Key(k) => {
                if k.code == KeyCode::Esc {
                    self.mode = Mode::Normal;
                }
                (c, no_commands())
            },
        }
    }

    /// Leaves visual mode; `cmds` come before the clearing of the selection.
    fn leave_visual(&mut self, c: Position, cmds: Vec<Command>) -> (r: (Position, Vec<Command>))
        ensures
            forall|reg: Option<Seq<char>>|
                produced(
                    #[trigger] leave_visual(old(self)@, c, reg, commands_view(cmds@)),
                    final(self)@,
                    r,
                    reg,
                ),
    {
        self.mode = Mode::Normal;
        self.visual_anchor = None;
        self.settle();
        let mut out = cmds;
        let ghost before = out@;
        out.push(Command::SetSelection(None));
        proof {
            assert(commands_view(out@) =~= commands_view(before).push(
                CommandView::SetSelection(None),
            ));
        }
        (c, out)
    }

    /// Moves by `m` in visual mode and reselects from the anchor.
    fn visual_motion<T: TextOps>(
        &mut self,
        text: &T,
        c: Position,
        kind: VisualKind,
        m: Motion,
    ) -> (r: (Position, Vec<Command>))
        requires
            old(self)@.visual_anchor is Some,
        ensures
            forall|reg: Option<Seq<char>>|
                produced(
                    #[trigger] visual_motion(old(self)@, text, reg, c, kind, m),
                    final(self)@,
                    r,
                    reg,
                ),
    {
        let count = self.counts.current;
        let n = self.counts.take_or(1);
        let p = target_of(text, m, c, n, count, self.preferred_col);
        self.preferred_col = preferred_for(m, p);
        let anchor = match self.visual_anchor {
            Some(a) => a,
            None => c,
        };
        let sel = select(text, kind, anchor, p);
        (p, pair(Command::SetCursor(p), Command::SetSelection(Some(sel))))
    }

    /// Switches the kind of visual selection.
    fn switch_visual<T: TextOps>(&mut self, text: &T, c: Position, kind: VisualKind) -> (r: (
        Position,
        Vec<Command>,
    ))
        requires
            old(self)@.visual_anchor is Some,
        ensures
            forall|reg: Option<Seq<char>>|
                produced(#[trigger] switch_visual(old(self)@, text, reg, c, kind), final(self)@, r, reg),
    {
        self.mode = Mode::Visual(kind);
        let anchor = match self.visual_anchor {
            Some(a) => a,
            None => c,
        };
        let sel = select(text, kind, anchor, c);
        (c, single(Command::SetSelection(Some(sel))))
    }

    /// `d` (with `delete`) or `y` in visual mode.
    fn visual_operator<T: TextOps, C: Clipboard>(
        &mut self,
        text: &T,
        clipboard: &mut C,
        c: Position,
        kind: VisualKind,
        delete: bool,
    ) -> (r: (Position, Vec<Command>))
        requires
            old(self)@.visual_anchor is Some,
        ensures
            produced(
                visual_operator(old(self)@, text, old(clipboard).register(), c, kind, delete),
                final(self)@,
                r,
                final(clipboard).register(),
            ),
    {
        let anchor = match self.visual_anchor {
            Some(a) => a,
            None => c,
        };
        let range = match kind {
            VisualKind::CharWise => {
                let ends = Range::spanning(anchor, c);
                let end = text.move_right(ends.end, 1);
                Range::spanning(ends.start, end)
            },
            VisualKind::LineWise => {
                let (low, high) = if anchor.line <= c.line {
                    (anchor.line, c.line)
                } else {
                    (c.line, anchor.line)
                };
                Range {
                    start: text.line_start(low),
                    end: text.line_start(high.saturating_add(1)),
                }
            },
        };
        proof {
            assert(range == visual_range(text, kind, anchor, c));
        }
        if range.start == range.end {
            return self.leave_visual(range.start, no_commands());
        }
        let slice = text.slice_to_string(range);
        let copied = match kind {
            VisualKind::CharWise => slice,
            VisualKind::LineWise => newline_terminated(slice),
        };
        clipboard.set(copied);
        let cmds = if delete {
            single(Command::Delete { range })
        } else {
            no_commands()
        };
        self.leave_visual(range.start, cmds)
    }

    /// A key in visual mode once a pending `g` it does not complete is dropped.
    fn visual_unpended<T: TextOps, C: Clipboard>(
        &mut self,
        text: &T,
        clipboard: &mut C,
        c: Position,
        kind: VisualKind,
        code: KeyCode,
    ) -> (r: (Position, Vec<Command>))
        requires
            old(self)@.visual_anchor is Some,
        ensures
            produced(
                visual_unpended(old(self)@, text, old(clipboard).register(), c, kind, code),
                final(self)@,
                r,
                final(clipboard).register(),
            ),
    {
        match code {
            KeyCode::Esc => self.leave_visual(c, no_commands()),
            KeyCode::Char(ch) => {
                if let Some(d) = digit_of(ch) {
                    if !(ch == '0' && self.counts.current.is_none()) {
                        self.counts.push_digit(d);
                        return (c, no_commands());
                    }
                }
                match motion_for(ch) {
                    Some(m) => self.visual_motion(text, c, kind, m),
                    None => {
                        if ch == 'g' {
                            self.pending = PendingKey::G;
                            (c, no_commands())
                        } else if ch == 'v' {
                            if kind == VisualKind::CharWise {
                                self.leave_visual(c, no_commands())
                            } else {
                                self.switch_visual(text, c, VisualKind::CharWise)
                            }
                        } else if ch == 'V' {
                            if kind == VisualKind::LineWise {
                                self.leave_visual(c, no_commands())
                            } else {
                                self.switch_visual(text, c, VisualKind::LineWise)
                            }
                        } else if ch == 'd' {
                            self.visual_operator(text, clipboard, c, kind, true)
                        } else if ch == 'y' {
                            self.visual_operator(text, clipboard, c, kind, false)
                        } else {
                            (c, no_commands())
                        }
                    },
                }
            },
            _ => (c, no_commands()),
        }
    }

    /// A key in visual mode.
    fn visual_key<T: TextOps, C: Clipboard>(
        &mut self,
        text: &T,
        clipboard: &mut C,
        c: Position,
        kind: VisualKind,
        code: KeyCode,
    ) -> (r: (Position, Vec<Command>))
        requires
            old(self)@.visual_anchor is Some,
        ensures
            produced(
                visual_key(old(self)@, text, old(clipboard).register(), c, kind, code),
                final(self)@,
                r,
                final(clipboard).register(),
            ),
    {
        let completes = self.pending == PendingKey::G && code == KeyCode::Char('g');
        self.clear_pending();
        if completes {
            self.visual_motion(text, c, kind, Motion::FirstLine)
        } else {
            self.visual_unpended(text, clipboard, c, kind, code)
        }
    }

    /// An event in the search prompt.
    fn search_event<T: TextOps>(
        &mut self,
        text: &T,
        c0: Position,
        c: Position,
        input: InputEvent,
    ) -> (r: (Position, Vec<Command>))
        ensures
            forall|reg: Option<Seq<char>>|
                produced(
                    #[trigger] search_event(old(self)@, text, reg, c0, c, input),
                    final(self)@,
                    r,
                    reg,
                ),
    {
        match input {
            InputEvent::ReceivedChar(ch) => {
                let piece = char_to_string(ch);
                let ghost before = self.search_query@;
                self.search_query.append(piece.as_str());
                proof {
                    assert(self.search_query@ =~= before.push(ch));
                }
                (c, no_commands())
            },
            InputEvent::Key(k) => match k.code {
                KeyCode::Backspace => {
                    let len = self.search_query.as_str().unicode_len();
                    let drop = last_grapheme_len(self.search_query.as_str());
                    let kept = String::from_str(
                        self.search_query.as_str().substring_char(0, len - drop),
                    );
                    proof {
                        assert(kept@ =~= query_backspaced(self.search_query@));
                    }
                    self.search_query = kept;
                    (c, no_commands())
                },
                KeyCode::Enter => {
                    let mut query = String::new();
                    core::mem::swap(&mut self.search_query, &mut query);
                    self.mode = Mode::Normal;
                    if query.as_str().unicode_len() == 0 {
                        return (c, no_commands());
                    }
                    match text.search_forward(c, query.as_str(), true) {
                        Some(p) => {
                            self.last_search = Some(LastSearch { needle: query, forward: true });
                            (p, moved_commands(c0, p))
                        },
                        None => (c, no_commands()),
                    }
                },
                KeyCode::Esc => {
                    self.search_query = String::new();
                    self.mode = Mode::Normal;
                    let p = text.clamp(self.search_resume_cursor);
                    (p, moved_commands(c0, p))
                },
                _ => (c, no_commands()),
            },
        }
    }

    /// Handles one input event.  The cursor is first clamped to the buffer;
    /// the answer is the new cursor and the commands for the host, in order.
    pub fn handle_event<T: TextOps, C: Clipboard>(
        &mut self,
        text: &T,
        clipboard: &mut C,
        cursor: Position,
        input: InputEvent,
    ) -> (r: (Position, Vec<Command>))
        requires
            old(self)@.wf(),
        ensures
            produced(
                step(old(self)@, text, old(clipboard).register(), cursor, input),
                final(self)@,
                r,
                final(clipboard).register(),
            ),
            final(self)@.wf(),
    {
        let c = text.clamp(cursor);
        let r = match self.mode {
            Mode::Normal => match input {
                InputEvent::Key(k) => self.normal_key(text, clipboard, cursor, c, k.code),
                InputEvent::ReceivedChar(_) => (c, no_commands()),
            },
            Mode::Insert => self.insert_event(c, input),
            Mode::Visual(kind) => match input {
                InputEvent::Key(k) => self.visual_key(text, clipboard, c, kind, k.code),
                InputEvent::ReceivedChar(_) => (c, no_commands()),
            },
            Mode::SearchPrompt => self.search_event(text, cursor, c, input),
        };
        proof {
            lemma_step_wf(old(self)@, text, old(clipboard).register(), cursor, input);
        }
        r
    }
}

/// The selection between anchor `a` and cursor `p`.
fn select<T: TextOps>(text: &T, kind: VisualKind, a: Position, p: Position) -> (r: Selection)
    ensures
        r == selection_of(text, kind, a, p),
{
    match kind {
        VisualKind::CharWise => {
            let range = Range::spanning(a, p);
            Selection { start: range.start, end: range.end, kind }
        },
        VisualKind::LineWise => {
            let (low, high) = if a.line <= p.line {
                (a.line, p.line)
            } else {
                (p.line, a.line)
            };
            Selection { start: text.line_start(low), end: text.line_end(high), kind }
        },
    }
}

/// The commands that insert `text` `count` times, the first at `at`, each
/// next one `line_step` lines and `col_step` columns further (capped at
/// `u32::MAX`).
pub fn paste_inserts(text: &String, count: u32, at: Position, line_step: u32, col_step: u32) -> (r:
    Vec<Command>)
    ensures
        commands_view(r@) == paste_commands(
            count as nat,
            at,
            line_step as nat,
            col_step as nat,
            text@,
        ),
{
    let ghost dl = line_step as nat;
    let ghost dc = col_step as nat;
    let mut v: Vec<Command> = Vec::new();
    let mut i: u32 = 0;
    let mut line = at.line;
    let mut col = at.col;
    proof {
        assert(commands_view(v@) =~= paste_commands(0, at, dl, dc, text@));
    }
    while i < count
        invariant
            i <= count,
            v.len() == i,
            dl == line_step,
            dc == col_step,
            line == sat(at.line + i * dl),
            col == sat(at.col + i * dc),
            commands_view(v@) == paste_commands(i as nat, at, dl, dc, text@),
        decreases count - i,
    {
        let t = text.clone();
        let ghost before = v@;
        v.push(Command::InsertText { at: Position { line, col }, text: t });
        proof {
            let next = paste_commands((i + 1) as nat, at, dl, dc, text@);
            assert forall|j: int| 0 <= j < i + 1 implies #[trigger] commands_view(v@)[j] == next[j] by {
                if j < i {
                    assert(v@[j] == before[j]);
                    assert(commands_view(before)[j] == paste_commands(i as nat, at, dl, dc, text@)[j]);
                }
            }
            assert(commands_view(v@) =~= next);
            lemma_sat_step(at.line, dl, i as nat);
            lemma_sat_step(at.col, dc, i as nat);
        }
        line = line.saturating_add(line_step);
        col = col.saturating_add(col_step);
        i = i + 1;
    }
    v
}

/// Capping the step at `u32::MAX` does not change the capped positions.
proof fn lemma_capped_step(n: nat, at: Position, dl: nat, dc: nat, text: Seq<char>)
    ensures
        paste_commands(n, at, sat(dl as int) as nat, sat(dc as int) as nat, text)
            == paste_commands(n, at, dl, dc, text),
{
    assert forall|i: int, a: u32, d: nat| 0 <= i implies #[trigger] sat(a + i * sat(d as int)) == sat(
        a + i * d,
    ) by {
        if d > u32::MAX && i >= 1 {
            assert(i * d >= d) by (nonlinear_arith)
                requires
                    i >= 1,
                    d >= 0,
            ;
            assert(i * sat(d as int) >= sat(d as int)) by (nonlinear_arith)
                requires
                    i >= 1,
                    sat(d as int) >= 0,
            ;
        }
    }
    assert(paste_commands(n, at, sat(dl as int) as nat, sat(dc as int) as nat, text)
        =~= paste_commands(n, at, dl, dc, text));
}

/// Adding the capped step to the capped `i`-th value gives the capped
/// `i + 1`-th value.
proof fn lemma_sat_step(a: u32, d: nat, i: nat)
    ensures
        sat(sat(a + i * d) + sat(d as int)) == sat(a + (i + 1) * d),
{
    assert((i + 1) * d == i * d + d) by (nonlinear_arith);
    assert(i * d >= 0) by (nonlinear_arith);
}

} // verus!
