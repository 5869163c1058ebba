//! What the editing keys promise, said of the text and the cursor alone.

use vstd::prelude::*;
use crate::input::area;
use crate::input::area::{Area, Motion};
use crate::input::composer;
use crate::input::composer::Composer;
use crate::input::keys::{KeyCode, KeyEvent};
use crate::input::layout;
use crate::input::vim;
use crate::input::vim::{Pending, VimMode, VimState};
use crate::text;

verus! {

/// No newline stands in the range `[from, to)`.
pub open spec fn one_line(t: Seq<char>, from: int, to: int) -> bool {
    forall|i: int| from <= i < to ==> #[trigger] t[i] != '\n'
}

/// `[s, e)` is the logical line that holds the offset `at`.
pub open spec fn is_line(t: Seq<char>, at: int, s: int, e: int) -> bool {
    &&& 0 <= s <= at <= e <= t.len()
    &&& s == 0 || t[s - 1] == '\n'
    &&& e == t.len() || t[e] == '\n'
    &&& one_line(t, s, e)
}

/// A letter pressed alone.
pub open spec fn letter(key: KeyEvent, ch: char) -> bool {
    &&& key.code == KeyCode::Char(ch)
    &&& !key.modifiers.control
    &&& !key.modifiers.alt
    &&& !key.modifiers.command
    &&& !key.modifiers.meta
}

proof fn head_found(t: Seq<char>, at: int)
    requires
        0 <= at <= t.len(),
    ensures
        ({
            let s = area::line_start(t, at);
            &&& 0 <= s <= at
            &&& s == 0 || t[s - 1] == '\n'
            &&& one_line(t, s, at)
        }),
    decreases at,
{
    if at > 0 && t[at - 1] != '\n' {
        head_found(t, at - 1);
    }
}

proof fn tail_found(t: Seq<char>, at: int)
    requires
        0 <= at <= t.len(),
    ensures
        ({
            let e = area::line_end(t, at);
            &&& at <= e <= t.len()
            &&& e == t.len() || t[e] == '\n'
            &&& one_line(t, at, e)
        }),
    decreases t.len() - at,
{
    if at < t.len() && t[at] != '\n' {
        tail_found(t, at + 1);
    }
}

/// The head of a line and its end bound the logical line that holds the
/// cursor, and the text stays as it is.
pub proof fn heads_and_ends_bound_the_line(a: Area)
    requires
        a.ok(),
    ensures
        is_line(a.text, a.cursor, a.moved(Motion::Head).cursor, a.moved(Motion::End).cursor),
        a.moved(Motion::Head).text == a.text,
        a.moved(Motion::End).text == a.text,
{
    head_found(a.text, a.cursor);
    tail_found(a.text, a.cursor);
}

/// In normal mode `0` and `I` go to the head of the logical line, `$` and `A`
/// to its end. None of them changes the text, and the capital letters enter
/// insert mode.
pub proof fn line_letters_stay_on_their_line(s: VimState, key: KeyEvent, c: Composer)
    requires
        s.mode is Normal,
        c.area.ok(),
        letter(key, '0') || letter(key, 'I') || letter(key, '$') || letter(key, 'A'),
    ensures
        ({
            let (t, d) = vim::stepped(s, key, c);
            let p = d.area.cursor;
            &&& d.area.text == c.area.text
            &&& d.area.anchor is None
            &&& t.pending is None
            &&& (letter(key, 'I') || letter(key, 'A')) ==> t.mode is Insert
            &&& (letter(key, '0') || letter(key, '$')) ==> t.mode is Normal
            &&& (letter(key, '0') || letter(key, 'I')) ==> 0 <= p <= c.area.cursor && (p == 0
                || c.area.text[p - 1] == '\n') && one_line(c.area.text, p, c.area.cursor)
            &&& (letter(key, '$') || letter(key, 'A')) ==> c.area.cursor <= p <= c.area.text.len()
                && (p == c.area.text.len() || c.area.text[p] == '\n') && one_line(
                c.area.text,
                c.area.cursor,
                p,
            )
        }),
{
    head_found(c.area.text, c.area.cursor);
    tail_found(c.area.text, c.area.cursor);
}

/// In normal mode `i` types from where the cursor is, and `a` from one
/// character on: the text stays, and insert mode is entered.
pub proof fn i_and_a_begin_to_type(s: VimState, key: KeyEvent, c: Composer)
    requires
        s.mode is Normal,
        letter(key, 'i') || letter(key, 'a'),
    ensures
        ({
            let (t, d) = vim::stepped(s, key, c);
            &&& t == (VimState { mode: VimMode::Insert, pending: None })
            &&& d.area.text == c.area.text
            &&& letter(key, 'i') ==> d == c
            &&& letter(key, 'a') ==> d.area.cursor == area::area_step(
                c.area.text,
                c.area.cursor,
                c.area.layout,
                Motion::Forward,
            )
        }),
{
}

/// In normal mode `o` opens an empty line below the one that holds the cursor,
/// and `O` one above it: a single newline comes in, and insert mode is
/// entered. `o` puts the cursor on the new line.
pub proof fn o_opens_a_line(st: VimState, key: KeyEvent, c: Composer, s: int, e: int)
    requires
        st.mode is Normal,
        c.area.ok(),
        is_line(c.area.text, c.area.cursor, s, e),
        letter(key, 'o') || letter(key, 'O'),
    ensures
        ({
            let (t, d) = vim::stepped(st, key, c);
            let x = c.area.text;
            &&& t == (VimState { mode: VimMode::Insert, pending: None })
            &&& letter(key, 'o') ==> d.area.text == x.take(e) + seq!['\n'] + x.skip(e)
                && d.area.cursor == e + 1
            &&& letter(key, 'O') ==> d.area.text == x.take(s) + seq!['\n'] + x.skip(s)
        }),
{
    let x = c.area.text;
    head_found(x, c.area.cursor);
    tail_found(x, c.area.cursor);
    let a = area::line_start(x, c.area.cursor);
    let b = area::line_end(x, c.area.cursor);
    if a < s {
        assert(x[s - 1] != '\n');
    } else if s < a {
        assert(x[a - 1] != '\n');
    }
    if b < e {
        assert(x[b] != '\n');
    } else if e < b {
        assert(x[e] != '\n');
    }
}

/// In normal mode the motion letters move the cursor as the widget does, each
/// in its own direction, and change nothing else.
pub proof fn motion_letters_only_move(s: VimState, key: KeyEvent, c: Composer, m: Motion)
    requires
        s.mode is Normal,
        ({
            ||| letter(key, 'h') && m == Motion::Back
            ||| letter(key, 'l') && m == Motion::Forward
            ||| letter(key, 'j') && m == Motion::Down
            ||| letter(key, 'k') && m == Motion::Up
            ||| letter(key, 'w') && m == Motion::WordForward
            ||| letter(key, 'b') && m == Motion::WordBack
            ||| letter(key, 'e') && m == Motion::WordEnd
        }),
    ensures
        ({
            let (t, d) = vim::stepped(s, key, c);
            &&& t == (VimState { mode: VimMode::Normal, pending: None })
            &&& d.area.text == c.area.text
            &&& d.area.past == c.area.past
            &&& d.area.future == c.area.future
            &&& d.area.yank == c.area.yank
            &&& d.area.anchor is None
            &&& d.area.cursor == area::area_step(c.area.text, c.area.cursor, c.area.layout, m)
        }),
{
}

proof fn first_jump(t: Seq<char>)
    ensures
        area::jump(t, 0, 0) == 0,
{
    text::join_pieces(t, '\n');
}

/// In normal mode `gg` goes to the head of the text; the first `g` waits.
pub proof fn gg_goes_to_the_top(s: VimState, key: KeyEvent, c: Composer)
    requires
        s.mode is Normal,
        letter(key, 'g'),
    ensures
        ({
            let (t, d) = vim::stepped(s, key, c);
            &&& t.mode is Normal
            &&& d.area.text == c.area.text
            &&& s.pending == Some(Pending::G) ==> d.area.cursor == 0 && t.pending is None
            &&& s.pending != Some(Pending::G) ==> d == c && t.pending == Some(Pending::G)
        }),
{
    first_jump(c.area.text);
}

proof fn last_line_starts(lines: Seq<Seq<char>>)
    requires
        lines.len() > 0,
    ensures
        ({
            let t = text::joined(lines, seq!['\n']);
            let s = area::offset(lines, lines.len() - 1, 0);
            &&& 0 <= s <= t.len()
            &&& s == 0 || t[s - 1] == '\n'
            &&& t.skip(s) == lines.last()
        }),
    decreases lines.len(),
{
    reveal_with_fuel(area::offset, 2);
    if lines.len() > 1 {
        let rest = lines.skip(1);
        last_line_starts(rest);
        layout::offset_shift(lines, lines.len() - 1, 0);
        let r = text::joined(rest, seq!['\n']);
        let t = text::joined(lines, seq!['\n']);
        assert(t == lines[0] + seq!['\n'] + r);
        let s = area::offset(rest, rest.len() - 1, 0);
        let n = lines[0].len() + 1;
        assert(t.skip(n + s) == r.skip(s));
        assert(rest.last() == lines.last());
        if s == 0 {
            assert(t[n - 1] == '\n');
        } else {
            assert(t[n + s - 1] == r[s - 1]);
        }
    } else {
        assert(text::joined(lines, seq!['\n']) == lines[0]);
        assert(lines[0].skip(0) == lines[0]);
    }
}

proof fn pieces_hold_none(s: Seq<char>, k: int)
    requires
        0 <= k < area::lines_of(s).len(),
    ensures
        !area::lines_of(s)[k].contains('\n'),
{
    text::join_pieces(s, '\n');
}

/// In normal mode `G` goes to the head of the last line, where the widget can
/// be told its number.
pub proof fn capital_g_goes_to_the_last_line(s: VimState, key: KeyEvent, c: Composer)
    requires
        s.mode is Normal,
        letter(key, 'G'),
        area::lines_of(c.area.text).len() <= 65536,
    ensures
        ({
            let (t, d) = vim::stepped(s, key, c);
            let p = d.area.cursor;
            &&& t.mode is Normal
            &&& d.area.text == c.area.text
            &&& 0 <= p <= c.area.text.len()
            &&& p == 0 || c.area.text[p - 1] == '\n'
            &&& one_line(c.area.text, p, c.area.text.len() as int)
        }),
{
    let x = c.area.text;
    let lines = area::lines_of(x);
    text::join_pieces(x, '\n');
    last_line_starts(lines);
    pieces_hold_none(x, lines.len() - 1);
    let p = area::offset(lines, lines.len() - 1, 0);
    assert forall|i: int| p <= i < x.len() implies #[trigger] x[i] != '\n' by {
        assert(x.skip(p)[i - p] == x[i]);
        assert(lines.last().contains(x.skip(p)[i - p]));
    }
}

/// In normal mode `x` removes what the delete key would, `X` the character
/// before the cursor, `u` undoes and `p` pastes.
pub proof fn small_commands_edit(s: VimState, key: KeyEvent, c: Composer)
    requires
        s.mode is Normal,
        c.area.ok(),
    ensures
        ({
            let (t, d) = vim::stepped(s, key, c);
            let x = c.area.text;
            let n = area::area_step(x, c.area.cursor, c.area.layout, Motion::Forward);
            &&& letter(key, 'x') && c.area.selected() is None && n != c.area.cursor
                ==> d.area.text == x.take(n - 1) + x.skip(n) && d.area.cursor == n - 1
            &&& letter(key, 'X') && c.area.selected() is None && c.area.cursor > 0 ==> d.area.text
                == x.take(c.area.cursor - 1) + x.skip(c.area.cursor) && d.area.cursor
                == c.area.cursor - 1
            &&& letter(key, 'u') && c.area.past.len() > 0 ==> d.area.text
                == c.area.past.last().before && d.area.cursor == c.area.past.last().before_at
            &&& letter(key, 'p') && c.area.selected() is None ==> d.area.text == x.take(
                c.area.cursor,
            ) + c.area.yank + x.skip(c.area.cursor) && d.area.cursor == c.area.cursor
                + c.area.yank.len()
            &&& (letter(key, 'x') || letter(key, 'X') || letter(key, 'u') || letter(key, 'p'))
                ==> t.mode is Normal
        }),
{
    let x = c.area.text;
    assert(x.take(c.area.cursor) + c.area.yank + x.skip(c.area.cursor) == x || c.area.yank.len()
        > 0);
}

/// Esc leaves insert mode for normal mode, and the draft as it is; vim editing
/// that is off takes no key.
pub proof fn esc_leaves_insert_mode(s: VimState, key: KeyEvent, c: Composer)
    ensures
        s.mode is Insert && key.code == KeyCode::Esc ==> vim::consumes(s, key) && vim::stepped(
            s,
            key,
            c,
        ) == (VimState { mode: VimMode::Normal, pending: None }, c),
        s.mode is Insert && key.code != KeyCode::Esc ==> !vim::consumes(s, key) && vim::stepped(
            s,
            key,
            c,
        ) == (s, c),
        s.mode is Off ==> !vim::consumes(s, key) && vim::stepped(s, key, c) == (s, c),
{
}


proof fn line_stands(lines: Seq<Seq<char>>, r: int)
    requires
        0 <= r < lines.len(),
    ensures
        ({
            let t = text::joined(lines, seq!['\n']);
            let s = area::offset(lines, r, 0);
            let e = s + lines[r].len();
            &&& 0 <= s <= e <= t.len()
            &&& t.subrange(s, e) == lines[r]
            &&& r == 0 ==> s == 0
            &&& r > 0 ==> s > 0 && t[s - 1] == '\n'
            &&& r + 1 < lines.len() ==> e < t.len() && t[e] == '\n'
            &&& r + 1 == lines.len() ==> e == t.len()
        }),
    decreases lines.len(),
{
    reveal_with_fuel(area::offset, 2);
    let t = text::joined(lines, seq!['\n']);
    if lines.len() == 1 {
        assert(t == lines[0]);
        assert(t.subrange(0, t.len() as int) == t);
    } else {
        let rest = lines.skip(1);
        let q = text::joined(rest, seq!['\n']);
        let n = lines[0].len() + 1;
        assert(t == lines[0] + seq!['\n'] + q);
        assert(t[n - 1] == '\n');
        if r == 0 {
            assert(t.subrange(0, n - 1) == lines[0]);
        } else {
            line_stands(rest, r - 1);
            layout::offset_shift(lines, r, 0);
            let s = area::offset(rest, r - 1, 0);
            let e = s + rest[r - 1].len();
            assert(rest[r - 1] == lines[r]);
            assert(t.subrange(n + s, n + e) == q.subrange(s, e));
            if s > 0 {
                assert(t[n + s - 1] == q[s - 1]);
            }
            if r + 1 < lines.len() {
                assert(t[n + e] == q[e]);
            }
        }
    }
}

/// The widget can be told every place of a text: no line number and no column
/// is too large for it.
pub open spec fn tellable(t: Seq<char>) -> bool {
    &&& area::lines_of(t).len() <= 65536
    &&& forall|i: int|
        0 <= i < area::lines_of(t).len() ==> (#[trigger] area::lines_of(t)[i]).len() < 65536
}

/// What killing a line leaves of a text, given the line.
proof fn line_found(t: Seq<char>, at: int, s: int, e: int)
    requires
        0 <= at <= t.len(),
        is_line(t, at, s, e),
    ensures
        ({
            let lines = area::lines_of(t);
            let r = composer::locate(lines, at).0;
            &&& 0 <= r < lines.len()
            &&& area::offset(lines, r, 0) == s
            &&& lines[r].len() == e - s
            &&& (r + 1 < lines.len()) == (e < t.len())
            &&& (r > 0) == (s > 0)
        }),
{
    let lines = area::lines_of(t);
    text::join_pieces(t, '\n');
    composer::locate_is_offset(lines, at);
    let (r, col) = composer::locate(lines, at);
    line_stands(lines, r);
    layout::offset_in_joined(lines, r, col);
    pieces_hold_none(t, r);
    let a = area::offset(lines, r, 0);
    let b = a + lines[r].len();
    assert forall|i: int| a <= i < b implies #[trigger] t[i] != '\n' by {
        assert(t.subrange(a, b)[i - a] == t[i]);
        assert(lines[r].contains(t.subrange(a, b)[i - a]));
    }
    if a < s {
        assert(t[s - 1] != '\n');
    } else if s < a {
        assert(t[a - 1] != '\n');
    }
    if b < e {
        assert(t[b] != '\n');
    } else if e < b {
        assert(t[e] != '\n');
    }
}

/// Killing a line takes out the logical line that holds the cursor and no
/// other: with the newline after it, for the last line with the newline before
/// it, and the only line is emptied. What goes can be pasted.
pub proof fn a_killed_line_is_gone(c: Composer, s: int, e: int)
    requires
        c.area.ok(),
        tellable(c.area.text),
        is_line(c.area.text, c.area.cursor, s, e),
    ensures
        ({
            let t = c.area.text;
            let d = c.line_killed().area;
            &&& e < t.len() ==> d.text == t.take(s) + t.skip(e + 1) && d.cursor == s && d.yank
                == t.subrange(s, e + 1)
            &&& e == t.len() && s > 0 ==> d.text == t.take(s - 1) && d.yank == t.skip(s - 1)
            &&& e == t.len() && s == 0 ==> d.text.len() == 0
            &&& e == t.len() && s == 0 && t.len() > 0 ==> d.yank == t
        }),
{
    let t = c.area.text;
    line_found(t, c.area.cursor, s, e);
    composer::landing_is_exact(t, s);
    if s > 0 {
        composer::landing_is_exact(t, s - 1);
    }
    assert(t.skip(t.len() as int) =~= Seq::<char>::empty());
    assert(t.subrange(s, t.len() as int) == t.skip(s));
    if s > 0 {
        assert(t.subrange(s - 1, t.len() as int) == t.skip(s - 1));
    }
}

/// In normal mode `dd` kills the line; the first `d` waits.
pub proof fn dd_kills_the_line(st: VimState, key: KeyEvent, c: Composer, s: int, e: int)
    requires
        st.mode is Normal,
        letter(key, 'd'),
        c.area.ok(),
        tellable(c.area.text),
        is_line(c.area.text, c.area.cursor, s, e),
    ensures
        ({
            let (v, d) = vim::stepped(st, key, c);
            let t = c.area.text;
            &&& v.mode is Normal
            &&& st.pending != Some(Pending::D) ==> v.pending == Some(Pending::D) && d == c
            &&& st.pending == Some(Pending::D) ==> v.pending is None
            &&& st.pending == Some(Pending::D) && e < t.len() ==> d.area.text == t.take(s)
                + t.skip(e + 1)
            &&& st.pending == Some(Pending::D) && e == t.len() && s > 0 ==> d.area.text == t.take(
                s - 1,
            )
            &&& st.pending == Some(Pending::D) && e == t.len() && s == 0 ==> d.area.text.len() == 0
        }),
{
    a_killed_line_is_gone(c, s, e);
}

/// Typed text stands where the cursor was, or in place of the selection, and
/// the cursor stands behind it.
pub proof fn typing_lands_at_the_cursor(a: Area, s: Seq<char>)
    requires
        a.ok(),
    ensures
        ({
            let lo = if a.anchor is Some && a.anchor->0 < a.cursor { a.anchor->0 } else { a.cursor };
            let hi = if a.anchor is Some && a.anchor->0 > a.cursor { a.anchor->0 } else { a.cursor };
            &&& a.inserted(s).text == a.text.take(lo) + s + a.text.skip(hi)
            &&& a.inserted(s).cursor == lo + s.len()
            &&& a.inserted(s).anchor is None
        }),
{
    assert(a.text.take(a.cursor) + Seq::<char>::empty() + a.text.skip(a.cursor) == a.text);
    let b = a.without_selection();
    assert(s.len() == 0 ==> s == Seq::<char>::empty());
    match a.selected() {
        Some((lo, hi)) => {
            assert(b.text.take(lo) == a.text.take(lo));
            assert(b.text.skip(lo) == a.text.skip(hi));
            assert(a.text.take(lo) + Seq::<char>::empty() + a.text.skip(hi) == b.text);
        },
        None => {},
    }
}

/// Backspace takes back one typed character.
pub proof fn backspace_takes_back_a_character(a: Area, ch: char)
    requires
        a.ok(),
        a.selected() is None,
    ensures
        a.inserted(seq![ch]).backspaced().text == a.text,
        a.inserted(seq![ch]).backspaced().cursor == a.cursor,
        a.cursor == 0 ==> a.backspaced().text == a.text,
{
    let b = a.inserted(seq![ch]);
    assert(b.text.take(a.cursor) + b.text.skip(a.cursor + 1) == a.text);
}

/// Backspace and delete take out a selection and nothing else.
pub proof fn deleting_takes_the_selection(a: Area)
    requires
        a.ok(),
        a.anchor matches Some(x) && x != a.cursor,
    ensures
        ({
            let x = a.anchor->0;
            let lo = if x < a.cursor { x } else { a.cursor };
            let hi = if x < a.cursor { a.cursor } else { x };
            let rest = a.text.take(lo) + a.text.skip(hi);
            &&& a.backspaced().text == rest && a.backspaced().cursor == lo
            &&& a.deleted_forward().text == rest && a.deleted_forward().cursor == lo
            &&& a.deleted_word().text == rest && a.deleted_word().cursor == lo
            &&& a.cut().text == rest && a.cut().cursor == lo && a.cut().yank == a.text.subrange(
                lo,
                hi,
            )
            &&& a.copied().text == a.text && a.copied().cursor == a.cursor && a.copied().yank
                == a.text.subrange(lo, hi)
        }),
{
}

/// A selecting move keeps the place where the selection began, a plain one
/// gives the selection up; neither changes the text.
pub proof fn selecting_keeps_the_anchor(c: Composer, m: Motion)
    ensures
        c.extended(m).area.anchor == Some(
            match c.area.anchor {
                Some(a) => a,
                None => c.area.cursor,
            },
        ),
        c.extended(m).area.text == c.area.text,
        c.extended(m).area.cursor == c.moved(m).area.cursor,
        c.moved(m).area.anchor is None,
        c.moved(m).area.text == c.area.text,
{
}

/// The selected text is what stands between the cursor and where the selection
/// began, and a cut that is pasted gives the draft back.
pub proof fn a_cut_can_be_pasted_back(c: Composer)
    requires
        c.area.ok(),
        c.area.anchor matches Some(x) && x != c.area.cursor,
    ensures
        ({
            let x = c.area.anchor->0;
            let lo = if x < c.area.cursor { x } else { c.area.cursor };
            let hi = if x < c.area.cursor { c.area.cursor } else { x };
            let d = c.edited(c.area.cut());
            &&& c.selection() == Some(c.area.text.subrange(lo, hi))
            &&& d.area.text == c.area.text.take(lo) + c.area.text.skip(hi)
            &&& d.pasted().area.text == c.area.text
            &&& d.pasted().area.cursor == hi
        }),
{
    let x = c.area.anchor->0;
    let lo = if x < c.area.cursor { x } else { c.area.cursor };
    let hi = if x < c.area.cursor { c.area.cursor } else { x };
    let d = c.edited(c.area.cut());
    let y = c.area.text.subrange(lo, hi);
    assert(d.area.text.take(lo) + y + d.area.text.skip(lo) == c.area.text);
}

/// Killing to the end of the row takes out what stands between the cursor and
/// the end of the screen row that shows it, and can be pasted back; killing to
/// its start takes out what stands before the cursor on that row.
pub proof fn kills_stop_at_the_row(c: Composer, width: int)
    requires
        c.area.ok(),
        tellable(c.area.text),
        c.mirror(width).paved(),
    ensures
        ({
            let l = c.mirror(width);
            let t = c.area.text;
            &&& c.cursor_row(width) matches Some(i) && {
                &&& 0 <= i < l.rows.len()
                &&& l.rows[i].start <= c.area.cursor <= l.rows[i].end <= t.len()
                &&& c.killed_to_end(width).area.text == t.take(c.area.cursor) + t.skip(
                    l.rows[i].end,
                )
                &&& c.killed_to_end(width).area.cursor == c.area.cursor
                &&& c.killed_to_start(width).area.text == t.take(l.rows[i].start) + t.skip(
                    c.area.cursor,
                )
                &&& c.killed_to_start(width).area.cursor == l.rows[i].start
                &&& c.to_row_start(width).area.cursor == l.rows[i].start
                &&& c.to_row_start(width).area.text == t
                &&& c.to_row_end(width).area.cursor == l.rows[i].end
                &&& c.to_row_end(width).area.text == t
            }
        }),
{
    let l = c.mirror(width);
    let t = c.area.text;
    text::join_pieces(t, '\n');
    layout::row_start_stays_in_its_row(l, c.area.cursor);
    layout::caret_row_holds_it(l, c.area.cursor);
    let i = c.cursor_row(width)->0;
    composer::landing_is_exact(t, l.rows[i].start);
    composer::landing_is_exact(t, l.rows[i].end);
    assert(t.take(c.area.cursor) + t.skip(c.area.cursor) == t);
}

// --- cells of the well ----------------------------------------------------------

proof fn glyphs_ascend(g: Seq<layout::Glyph>, from: int, to: int, i: int, k: int)
    requires
        layout::tiles(g, from, to),
        forall|j: int| 0 <= j < g.len() ==> (#[trigger] g[j]).width >= 1,
        0 <= i < k < g.len(),
    ensures
        g[i].col + g[i].width <= g[k].col,
    decreases k - i,
{
    if i + 1 < k {
        glyphs_ascend(g, from, to, i + 1, k);
    }
    assert(g[i + 1].col == g[i].col + g[i].width);
}

proof fn glyph_is_met(row: layout::Row, i: int, k: int, col: int)
    requires
        row.tiled(),
        forall|j: int| 0 <= j < row.glyphs.len() ==> (#[trigger] row.glyphs[j]).width >= 1,
        0 <= i <= k < row.glyphs.len(),
        row.glyphs[k].col <= col < row.glyphs[k].col + row.glyphs[k].width,
    ensures
        row.after(i, col) == row.glyphs[k].end,
        row.before(i, col) == if row.glyphs[k].width > 1 && col - row.glyphs[k].col
            >= row.glyphs[k].width / 2 {
            row.glyphs[k].end
        } else {
            row.glyphs[k].start
        },
    decreases k - i,
{
    if i < k {
        glyphs_ascend(row.glyphs, row.start, row.end, i, k);
        glyph_is_met(row, i + 1, k, col);
    }
}

/// A click on a cell of the well puts the caret before the grapheme that is
/// shown there, and on the right half of a wide one behind it; a drag that ends
/// there takes the grapheme in.
pub proof fn a_cell_of_the_well_is_a_grapheme(l: layout::Layout, r: int, k: int, col: int)
    requires
        0 <= r < l.rows.len(),
        l.rows[r].tiled(),
        forall|j: int|
            0 <= j < l.rows[r].glyphs.len() ==> (#[trigger] l.rows[r].glyphs[j]).width >= 1,
        0 <= k < l.rows[r].glyphs.len(),
        l.rows[r].glyphs[k].col <= col < l.rows[r].glyphs[k].col + l.rows[r].glyphs[k].width,
    ensures
        ({
            let g = l.rows[r].glyphs[k];
            &&& l.boundary_after(r, col) == g.end
            &&& g.width == 1 ==> l.boundary_before(r, col) == g.start
            &&& g.width == 2 ==> l.boundary_before(r, col) == if col == g.col {
                g.start
            } else {
                g.end
            }
        }),
{
    glyph_is_met(l.rows[r], 0, k, col);
}

proof fn no_glyph_is_met(row: layout::Row, i: int, col: int)
    requires
        0 <= i,
        forall|j: int|
            0 <= j < row.glyphs.len() ==> (#[trigger] row.glyphs[j]).col + row.glyphs[j].cells()
                <= col,
    ensures
        row.before(i, col) == row.end,
        row.after(i, col) == row.end,
    decreases row.glyphs.len() - i,
{
    if i < row.glyphs.len() {
        assert(row.glyphs[i].col + row.glyphs[i].cells() <= col);
        no_glyph_is_met(row, i + 1, col);
    }
}

/// A blank cell behind a row is the row's end, and a row below the text is the
/// end of the text.
pub proof fn blank_cells_are_the_end(l: layout::Layout, r: int, col: int)
    requires
        0 <= r,
        r < l.rows.len() ==> forall|j: int|
            0 <= j < l.rows[r].glyphs.len() ==> (#[trigger] l.rows[r].glyphs[j]).col
                + l.rows[r].glyphs[j].cells() <= col,
    ensures
        r < l.rows.len() ==> l.boundary_before(r, col) == l.rows[r].end && l.boundary_after(r, col)
            == l.rows[r].end,
        r >= l.rows.len() ==> l.boundary_before(r, col) == l.total && l.boundary_after(r, col)
            == l.total,
{
    if r < l.rows.len() {
        no_glyph_is_met(l.rows[r], 0, col);
    }
}

/// The text between two places is what stands between them, whichever comes
/// first.
pub proof fn text_between_places(t: Seq<char>, a: int, b: int)
    requires
        0 <= a <= b <= t.len(),
    ensures
        composer::between(t, a, b) == t.subrange(a, b),
        composer::between(t, b, a) == t.subrange(a, b),
{
}

} // verus!
