//! Properties of the engine over all buffers and events, proved over the
//! transition [`step`] that [`Engine::handle_event`](crate::Engine::handle_event)
//! follows.
use vstd::prelude::*;

use crate::key::{InputEvent, KeyCode, Modifiers};
use crate::machine::{
    compose, count_or_one, key, digit_value, has_edit, motion_of, motion_target, normal_key,
    operator_end, run, start_of, step, unpended_key, visual_key, visual_range, EngineView,
    Motion, Operator, PendingKey,
};
use crate::traits::{clamped, in_bounds, last_line, lawful, TextOps};
use crate::types::{pos_max, CommandView, Mode, Position, Range, Selection, VisualKind};

verus! {

/// Every event keeps the state's invariants.
pub proof fn lemma_step_wf<T: TextOps>(
    e: EngineView,
    t: &T,
    reg: Option<Seq<char>>,
    c0: Position,
    ev: InputEvent,
)
    requires
        e.wf(),
    ensures
        step(e, t, reg, c0, ev).state.wf(),
{
}

/// With a host whose queries keep their contract, an event that changes no
/// text leaves the cursor inside the buffer, where clamping does not move it
/// (given a visual anchor inside the buffer, as it is while the text under a
/// selection stays unchanged).
pub proof fn lemma_cursor_in_bounds<T: TextOps>(
    e: EngineView,
    t: &T,
    reg: Option<Seq<char>>,
    c0: Position,
    ev: InputEvent,
)
    requires
        lawful(t),
        e.wf(),
        e.visual_anchor matches Some(a) ==> in_bounds(t, a),
    ensures
        !has_edit(step(e, t, reg, c0, ev).commands) ==> in_bounds(t, step(e, t, reg, c0, ev).cursor),
{
    let c = clamped(t, c0);
    let o = step(e, t, reg, c0, ev);
    assert(in_bounds(t, c));
    match e.mode {
        Mode::Normal => match ev {
            InputEvent::Key(k) => lemma_normal_in_bounds(e, t, reg, c0, c, k.code),
            _ => {},
        },
        Mode::Visual(kind) => match ev {
            InputEvent::Key(k) => lemma_visual_in_bounds(e, t, reg, c, kind, k.code),
            _ => {},
        },
        Mode::Insert => match ev {
            InputEvent::ReceivedChar(_) => {
                assert(o.commands[0] is InsertText);
            },
            _ => {},
        },
        Mode::SearchPrompt => {},
    }
}

/// A motion from inside the buffer lands inside it.
proof fn lemma_motion_in_bounds<T: TextOps>(
    t: &T,
    m: Motion,
    c: Position,
    n: u32,
    count: Option<u32>,
    pref: Option<u32>,
)
    requires
        lawful(t),
        in_bounds(t, c),
    ensures
        in_bounds(t, motion_target(t, m, c, n, count, pref)),
        in_bounds(t, operator_end(t, m, c, n, count)),
{
}

/// An operator applied between two positions inside the buffer that
/// changes no text leaves the cursor inside it.
proof fn lemma_compose_in_bounds<T: TextOps>(
    e: EngineView,
    t: &T,
    reg: Option<Seq<char>>,
    c: Position,
    op: Operator,
    end: Position,
)
    requires
        lawful(t),
        in_bounds(t, c),
        in_bounds(t, end),
    ensures
        !has_edit(compose(e, t, reg, c, op, end).commands) ==> in_bounds(
            t,
            compose(e, t, reg, c, op, end).cursor,
        ),
{
    let o = compose(e, t, reg, c, op, end);
    let r = Range::spec_spanning(c, end);
    if r.start != r.end && op == Operator::Delete {
        assert(o.commands[0] is Delete);
    }
}

/// The normal-mode part of [`lemma_cursor_in_bounds`].
proof fn lemma_normal_in_bounds<T: TextOps>(
    e: EngineView,
    t: &T,
    reg: Option<Seq<char>>,
    c0: Position,
    c: Position,
    code: KeyCode,
)
    requires
        lawful(t),
        e.wf(),
        in_bounds(t, c),
    ensures
        !has_edit(normal_key(e, t, reg, c0, c, code).commands) ==> in_bounds(
            t,
            normal_key(e, t, reg, c0, c, code).cursor,
        ),
{
    let e2 = EngineView { pending: PendingKey::Idle, ..e };
    let o = normal_key(e, t, reg, c0, c, code);
    let n = count_or_one(e.count);
    match (e.pending, code) {
        (PendingKey::G, KeyCode::Char('g')) => {
            lemma_motion_in_bounds(t, Motion::FirstLine, c, n, e.count, e.preferred_col);
            if let Some(op) = e2.op_pending {
                lemma_compose_in_bounds(
                    e2,
                    t,
                    reg,
                    c,
                    op,
                    operator_end(t, Motion::FirstLine, c, n, e.count),
                );
            }
        },
        (PendingKey::D, KeyCode::Char('d')) => {
            assert(o.commands[0] is Delete);
        },
        (PendingKey::Y, KeyCode::Char('y')) => {},
        (PendingKey::F { before }, KeyCode::Char(ch)) => {
            let e3 = EngineView { count: None, pending: PendingKey::Idle, ..e2 };
            if let Some(m) = t.spec_find_in_line(c, ch, n) {
                if let Some(op) = e.op_pending {
                    lemma_compose_in_bounds(
                        e3,
                        t,
                        reg,
                        c,
                        op,
                        if before {
                            m
                        } else {
                            t.spec_move_right(m, 1)
                        },
                    );
                }
            }
        },
        _ => lemma_unpended_in_bounds(e2, t, reg, c0, c, code),
    }
}

/// A normal-mode key once nothing is pending.
proof fn lemma_unpended_in_bounds<T: TextOps>(
    e: EngineView,
    t: &T,
    reg: Option<Seq<char>>,
    c0: Position,
    c: Position,
    code: KeyCode,
)
    requires
        lawful(t),
        e.wf(),
        in_bounds(t, c),
    ensures
        !has_edit(unpended_key(e, t, reg, c0, c, code).commands) ==> in_bounds(
            t,
            unpended_key(e, t, reg, c0, c, code).cursor,
        ),
{
    let o = unpended_key(e, t, reg, c0, c, code);
    let n = count_or_one(e.count);
    if let KeyCode::Char(ch) = code {
        if !(digit_value(ch) is Some && !(ch == '0' && e.count is None)) {
            if let Some(m) = motion_of(ch) {
                lemma_motion_in_bounds(t, m, c, n, e.count, e.preferred_col);
                if let Some(op) = e.op_pending {
                    lemma_compose_in_bounds(e, t, reg, c, op, operator_end(t, m, c, n, e.count));
                }
            } else if e.op_pending is Some {
                if (ch == 'd' && e.op_pending == Some(Operator::Delete)) {
                    assert(o.commands[0] is Delete);
                }
            } else if ch == 'x' {
                if o.commands.len() > 0 {
                    assert(o.commands[0] is Delete);
                }
            } else if ch == 'p' {
                if o.commands.len() > 0 {
                    assert(o.commands[0] is InsertText);
                }
            }
        }
    }
}

/// The visual-mode part of [`lemma_cursor_in_bounds`].
proof fn lemma_visual_in_bounds<T: TextOps>(
    e: EngineView,
    t: &T,
    reg: Option<Seq<char>>,
    c: Position,
    kind: VisualKind,
    code: KeyCode,
)
    requires
        lawful(t),
        e.wf(),
        e.visual_anchor matches Some(a) ==> in_bounds(t, a),
        e.mode == Mode::Visual(kind),
        in_bounds(t, c),
    ensures
        !has_edit(visual_key(e, t, reg, c, kind, code).commands) ==> in_bounds(
            t,
            visual_key(e, t, reg, c, kind, code).cursor,
        ),
{
    let o = visual_key(e, t, reg, c, kind, code);
    let n = count_or_one(e.count);
    let a = e.visual_anchor->0;
    if e.pending == PendingKey::G && code == KeyCode::Char('g') {
        lemma_motion_in_bounds(t, Motion::FirstLine, c, n, e.count, e.preferred_col);
    } else if let KeyCode::Char(ch) = code {
        if let Some(m) = motion_of(ch) {
            lemma_motion_in_bounds(t, m, c, n, e.count, e.preferred_col);
        } else if ch == 'd' || ch == 'y' {
            let r = visual_range(t, kind, a, c);
            if ch == 'd' && r.start != r.end {
                assert(o.commands[0] is Delete);
            }
        }
    }
}

/// Every emitted deletion covers an ordered range: `start <= end`.
pub proof fn lemma_deletes_ordered<T: TextOps>(
    e: EngineView,
    t: &T,
    reg: Option<Seq<char>>,
    c0: Position,
    ev: InputEvent,
)
    requires
        e.wf(),
    ensures
        forall|i: int|
            0 <= i < step(e, t, reg, c0, ev).commands.len() ==> (
            #[trigger] step(e, t, reg, c0, ev).commands[i] matches CommandView::Delete { range }
                ==> range.is_ordered()),
{
}

/// A deletion's ends lie in the buffer, the end at most at the start of the
/// line after the last one.
pub open spec fn clampable_delete<T: TextOps>(t: &T, cmd: CommandView) -> bool {
    cmd matches CommandView::Delete { range } ==> (range.start.line <= last_line(t)
        && range.end.line <= last_line(t) + 1)
}

/// With a host whose queries keep their contract (and a visual anchor
/// inside the buffer), every emitted deletion has ends that the host can
/// clamp: no line past the one after the last.
pub proof fn lemma_deletes_clampable<T: TextOps>(
    e: EngineView,
    t: &T,
    reg: Option<Seq<char>>,
    c0: Position,
    ev: InputEvent,
)
    requires
        lawful(t),
        e.wf(),
        e.visual_anchor matches Some(a) ==> in_bounds(t, a),
    ensures
        forall|i: int|
            0 <= i < step(e, t, reg, c0, ev).commands.len() ==> clampable_delete(
                t,
                #[trigger] step(e, t, reg, c0, ev).commands[i],
            ),
{
    let c = clamped(t, c0);
    let o = step(e, t, reg, c0, ev);
    let n = count_or_one(e.count);
    match e.mode {
        Mode::Normal => if let InputEvent::Key(k) = ev {
            let e2 = EngineView { pending: PendingKey::Idle, ..e };
            match (e.pending, k.code) {
                (PendingKey::F { before }, KeyCode::Char(ch)) => {
                    if let Some(m) = t.spec_find_in_line(c, ch, n) {
                        assert(in_bounds(t, m));
                        assert(in_bounds(t, t.spec_move_right(m, 1)));
                    }
                },
                (_, KeyCode::Char(ch)) => {
                    if let Some(m) = motion_of(ch) {
                        lemma_motion_in_bounds(t, m, c, n, e.count, e.preferred_col);
                    }
                    lemma_motion_in_bounds(t, Motion::FirstLine, c, n, e.count, e.preferred_col);
                },
                _ => {},
            }
        },
        Mode::Visual(kind) => if let InputEvent::Key(k) = ev {
            let a = e.visual_anchor->0;
            assert(in_bounds(t, t.spec_move_right(pos_max(a, c), 1)));
        },
        _ => {},
    }
}

/// Whenever an event brings the engine back to normal mode from another
/// mode, or completes a pending delete or yank, no operator is pending and
/// no visual anchor is held.
pub proof fn lemma_back_to_normal_clears<T: TextOps>(
    e: EngineView,
    t: &T,
    reg: Option<Seq<char>>,
    c0: Position,
    ev: InputEvent,
)
    requires
        e.wf(),
    ensures
        ({
            let o = step(e, t, reg, c0, ev);
            (o.state.mode == Mode::Normal && (e.mode != Mode::Normal || (e.op_pending is Some
                && (o.register != reg || has_edit(o.commands))))) ==> (o.state.op_pending is None
                && o.state.visual_anchor is None)
        }),
{
    let o = step(e, t, reg, c0, ev);
    if e.mode == Mode::Normal && e.op_pending is Some && has_edit(o.commands) {
        let i = choose|i: int|
            0 <= i < o.commands.len() && (o.commands[i] is Delete || o.commands[i] is InsertText);
        assert(o.commands[i] is Delete || o.commands[i] is InsertText);
    }
}

/// `Esc` in normal mode clears the count, the pending key, the operator and
/// the preferred column, and changes nothing else; a second `Esc` changes
/// nothing at all.
pub proof fn lemma_escape_idempotent<T: TextOps>(
    e: EngineView,
    t: &T,
    reg: Option<Seq<char>>,
    c0: Position,
    mods1: Modifiers,
    mods2: Modifiers,
)
    requires
        e.wf(),
        e.mode == Mode::Normal,
    ensures
        ({
            let o1 = step(e, t, reg, c0, key(KeyCode::Esc, mods1));
            let o2 = step(
                o1.state,
                t,
                o1.register,
                o1.cursor,
                key(KeyCode::Esc, mods2),
            );
            &&& o1.state == EngineView {
                count: None,
                pending: PendingKey::Idle,
                op_pending: None,
                preferred_col: None,
                ..e
            }
            &&& o1.cursor == clamped(t, c0)
            &&& o1.commands.len() == 0
            &&& o1.register == reg
            &&& o2.state == o1.state
            &&& o2.cursor == o1.cursor
            &&& o2.commands.len() == 0
            &&& o2.register == o1.register
        }),
{
}

/// `i` then `Esc`, from normal mode with nothing transient held and the
/// cursor inside the buffer, returns to the same state and cursor and
/// emits nothing.
pub proof fn lemma_insert_escape_round_trip<T: TextOps>(
    e: EngineView,
    t: &T,
    reg: Option<Seq<char>>,
    c0: Position,
    mods1: Modifiers,
    mods2: Modifiers,
)
    requires
        e.wf(),
        e.mode == Mode::Normal,
        e.at_rest(),
        in_bounds(t, c0),
    ensures
        ({
            let o1 = step(e, t, reg, c0, key(KeyCode::Char('i'), mods1));
            let o2 = step(
                o1.state,
                t,
                o1.register,
                o1.cursor,
                key(KeyCode::Esc, mods2),
            );
            &&& o1.state.mode == Mode::Insert
            &&& o2.state == e
            &&& o2.cursor == c0
            &&& o1.commands.len() == 0
            &&& o2.commands.len() == 0
            &&& o2.register == reg
        }),
{
}

/// A digit key.
pub open spec fn is_digit_key(ev: InputEvent) -> bool {
    ev matches InputEvent::Key(k) && (k.code matches KeyCode::Char(ch) && '0' <= ch && ch <= '9')
}

/// Digit keys keep the engine in normal mode.
proof fn lemma_digits_stay_normal<T: TextOps>(
    e: EngineView,
    t: &T,
    reg: Option<Seq<char>>,
    c: Position,
    digits: Seq<InputEvent>,
)
    requires
        e.wf(),
        e.mode == Mode::Normal,
        forall|i: int| 0 <= i < digits.len() ==> is_digit_key(#[trigger] digits[i]),
    ensures
        run(e, t, reg, c, digits).state.wf(),
        run(e, t, reg, c, digits).state.mode == Mode::Normal,
    decreases digits.len(),
{
    if digits.len() > 0 {
        let first = step(e, t, reg, c, digits[0]);
        lemma_step_wf(e, t, reg, c, digits[0]);
        assert(is_digit_key(digits[0]));
        let rest = digits.drop_first();
        assert forall|i: int| 0 <= i < rest.len() implies is_digit_key(#[trigger] rest[i]) by {
            assert(rest[i] == digits[i + 1]);
        }
        lemma_digits_stay_normal(first.state, t, first.register, first.cursor, rest);
    }
}

/// In normal mode, any digits followed by `Esc` leave no count.
pub proof fn lemma_digits_then_escape<T: TextOps>(
    e: EngineView,
    t: &T,
    reg: Option<Seq<char>>,
    c: Position,
    digits: Seq<InputEvent>,
    mods: Modifiers,
)
    requires
        e.wf(),
        e.mode == Mode::Normal,
        forall|i: int| 0 <= i < digits.len() ==> is_digit_key(#[trigger] digits[i]),
    ensures
        run(
            e,
            t,
            reg,
            c,
            digits.push(key(KeyCode::Esc, mods)),
        ).state.count is None,
    decreases digits.len(),
{
    let esc = key(KeyCode::Esc, mods);
    let evs = digits.push(esc);
    if digits.len() == 0 {
        let o1 = step(e, t, reg, c, esc);
        assert(evs.drop_first() =~= Seq::<InputEvent>::empty());
        assert(run(o1.state, t, o1.register, o1.cursor, evs.drop_first()).state == o1.state);
    } else {
        let first = step(e, t, reg, c, digits[0]);
        lemma_step_wf(e, t, reg, c, digits[0]);
        assert(is_digit_key(digits[0]));
        lemma_digits_stay_normal(e, t, reg, c, seq![digits[0]]);
        assert(seq![digits[0]].drop_first() =~= Seq::<InputEvent>::empty());
        let rest = digits.drop_first();
        assert(evs.drop_first() =~= rest.push(esc));
        assert forall|i: int| 0 <= i < rest.len() implies is_digit_key(#[trigger] rest[i]) by {
            assert(rest[i] == digits[i + 1]);
        }
        lemma_digits_then_escape(first.state, t, first.register, first.cursor, rest, mods);
    }
}

/// `v` then `v`, from normal mode with no operator or find pending, enters
/// character-wise visual mode and leaves it again: the mode and the anchor
/// come back, and the selection that `v` set is cleared.
pub proof fn lemma_visual_toggle<T: TextOps>(
    e: EngineView,
    t: &T,
    reg: Option<Seq<char>>,
    c0: Position,
    mods1: Modifiers,
    mods2: Modifiers,
)
    requires
        e.wf(),
        e.mode == Mode::Normal,
        e.op_pending is None,
        !(e.pending is F),
    ensures
        ({
            let c = clamped(t, c0);
            let o1 = step(e, t, reg, c0, key(KeyCode::Char('v'), mods1));
            let o2 = step(
                o1.state,
                t,
                o1.register,
                o1.cursor,
                key(KeyCode::Char('v'), mods2),
            );
            &&& o1.state.mode == Mode::Visual(VisualKind::CharWise)
            &&& o1.commands == seq![
                CommandView::SetSelection(
                    Some(Selection { start: c, end: c, kind: VisualKind::CharWise }),
                ),
            ]
            &&& o2.state.mode == e.mode
            &&& o2.state.visual_anchor == e.visual_anchor
            &&& o2.commands == seq![CommandView::SetSelection(None)]
            &&& o2.cursor == c
            &&& o2.register == reg
        }),
{
}

/// Yanking a character-wise selection puts its text in the register and the
/// cursor at its start; pasting right after (with no count) inserts exactly
/// that text, next to where the selection started.  Text that ends with a
/// line break would paste as whole lines instead, so it is left out.
pub proof fn lemma_yank_then_paste<T: TextOps>(
    e: EngineView,
    t: &T,
    reg: Option<Seq<char>>,
    c0: Position,
    mods1: Modifiers,
    mods2: Modifiers,
)
    requires
        e.wf(),
        e.mode == Mode::Visual(VisualKind::CharWise),
        e.count is None,
        e.pending == PendingKey::Idle,
        ({
            let r = visual_range(t, VisualKind::CharWise, e.visual_anchor->0, clamped(t, c0));
            let s = t.spec_slice(r);
            r.start != r.end && s.len() > 0 && s.last() != '\n'
        }),
    ensures
        ({
            let r = visual_range(t, VisualKind::CharWise, e.visual_anchor->0, clamped(t, c0));
            let o1 = step(e, t, reg, c0, key(KeyCode::Char('y'), mods1));
            let o2 = step(
                o1.state,
                t,
                o1.register,
                o1.cursor,
                key(KeyCode::Char('p'), mods2),
            );
            &&& o1.register == Some(t.spec_slice(r))
            &&& o1.cursor == r.start
            &&& o1.state.mode == Mode::Normal
            &&& o2.commands == seq![
                CommandView::InsertText {
                    at: t.spec_move_right(clamped(t, r.start), 1),
                    text: t.spec_slice(r),
                },
            ]
        }),
{
    let r = visual_range(t, VisualKind::CharWise, e.visual_anchor->0, clamped(t, c0));
    let o1 = step(e, t, reg, c0, key(KeyCode::Char('y'), mods1));
    let o2 = step(
        o1.state,
        t,
        o1.register,
        o1.cursor,
        key(KeyCode::Char('p'), mods2),
    );
    assert(o2.commands =~= seq![
        CommandView::InsertText {
            at: t.spec_move_right(clamped(t, r.start), 1),
            text: t.spec_slice(r),
        },
    ]);
}

/// With a host whose queries keep their contract, on an empty buffer (at
/// most one line, and that line empty), every
/// motion key in normal mode, with no operator or sequence pending, lands
/// at `(0, 0)`, and emits nothing when the cursor was already there.
pub proof fn lemma_empty_buffer_motions<T: TextOps>(
    e: EngineView,
    t: &T,
    reg: Option<Seq<char>>,
    c0: Position,
    ch: char,
    mods: Modifiers,
)
    requires
        lawful(t),
        e.wf(),
        e.mode == Mode::Normal,
        e.op_pending is None,
        e.pending == PendingKey::Idle,
        t.spec_line_count() <= 1,
        t.spec_line_len(0) == 0,
        motion_of(ch) is Some,
        !(ch == '0' && e.count is Some),
    ensures
        ({
            let o = step(e, t, reg, c0, key(KeyCode::Char(ch), mods));
            &&& o.cursor == Position { line: 0, col: 0 }
            &&& c0 == Position { line: 0, col: 0 } ==> o.commands.len() == 0
        }),
{
    let c = clamped(t, c0);
    lemma_motion_in_bounds(t, motion_of(ch)->0, c, count_or_one(e.count), e.count, e.preferred_col);
}

/// `$` on an empty line goes where `0` goes: the start of the line.
pub proof fn lemma_line_end_of_empty_line<T: TextOps>(
    e: EngineView,
    t: &T,
    reg: Option<Seq<char>>,
    c0: Position,
    mods1: Modifiers,
    mods2: Modifiers,
)
    requires
        e.wf(),
        e.mode == Mode::Normal,
        e.at_rest(),
        t.spec_line_len(clamped(t, c0).line) == 0,
    ensures
        step(e, t, reg, c0, key(KeyCode::Char('$'), mods1)).cursor
            == step(e, t, reg, c0, key(KeyCode::Char('0'), mods2)).cursor,
        step(e, t, reg, c0, key(KeyCode::Char('$'), mods1)).cursor
            == start_of(clamped(t, c0).line),
{
}

/// A count beyond the last line sends `G` to the last line: `100G` on a
/// buffer of four lines goes to the start of line `3`.
pub proof fn lemma_count_beyond_last_line<T: TextOps>(
    e: EngineView,
    t: &T,
    reg: Option<Seq<char>>,
    c0: Position,
    mods: Modifiers,
)
    requires
        e.wf(),
        e.mode == Mode::Normal,
        e.at_rest(),
        t.spec_line_count() == 4,
    ensures
        run(
            e,
            t,
            reg,
            c0,
            seq![
                key(KeyCode::Char('1'), mods),
                key(KeyCode::Char('0'), mods),
                key(KeyCode::Char('0'), mods),
                key(KeyCode::Char('G'), mods),
            ],
        ).cursor == (Position { line: 3, col: 0 }),
{
    let k1 = key(KeyCode::Char('1'), mods);
    let k0 = key(KeyCode::Char('0'), mods);
    let kg = key(KeyCode::Char('G'), mods);
    let evs = seq![k1, k0, k0, kg];
    let o1 = step(e, t, reg, c0, k1);
    assert(o1.state.count == Some(1u32));
    let o2 = step(o1.state, t, o1.register, o1.cursor, k0);
    assert(o2.state.count == Some(10u32));
    let o3 = step(o2.state, t, o2.register, o2.cursor, k0);
    assert(o3.state.count == Some(100u32));
    let o4 = step(o3.state, t, o3.register, o3.cursor, kg);
    assert(o4.cursor == Position { line: 3, col: 0 });
    assert(evs.drop_first() =~= seq![k0, k0, kg]);
    assert(seq![k0, k0, kg].drop_first() =~= seq![k0, kg]);
    assert(seq![k0, kg].drop_first() =~= seq![kg]);
    assert(seq![kg].drop_first() =~= Seq::<InputEvent>::empty());
    assert(run(o4.state, t, o4.register, o4.cursor, Seq::<InputEvent>::empty()).cursor == o4.cursor);
    assert(run(o3.state, t, o3.register, o3.cursor, seq![kg]).cursor == o4.cursor);
    assert(run(o2.state, t, o2.register, o2.cursor, seq![k0, kg]).cursor == o4.cursor);
    assert(run(o1.state, t, o1.register, o1.cursor, seq![k0, k0, kg]).cursor == o4.cursor);
}

} // verus!
