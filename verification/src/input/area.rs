//! The text widget under the composer, `ratatui_textarea::TextArea`, as a
//! buffer with a cursor: what it holds, and what each of its operations does.
//!
//! Everything the editor knows of the widget is stated here, over one name,
//! [`held`]. The widget keeps its text as lines; the model is the flat text
//! with newlines in it, and positions are character offsets into that text.

use vstd::prelude::*;
use crate::text;
use ratatui_textarea::{CursorMove, TextArea, WrapMode};

verus! {

/// The widget, carried through unopened.
#[verifier::external_body]
pub struct TextWidget {
    inner: TextArea<'static>,
}

/// One edit in the widget's history: the text and cursor that undoing it
/// gives back, and those that redoing it gives.
#[verifier::ext_equal]
pub struct Step {
    pub before: Seq<char>,
    pub before_at: int,
    pub after: Seq<char>,
    pub after_at: int,
}

/// What a widget holds.
#[verifier::ext_equal]
pub struct Area {
    /// The text, lines joined by newlines.
    pub text: Seq<char>,
    /// The cursor's offset.
    pub cursor: int,
    /// Where an active selection was started.
    pub anchor: Option<int>,
    /// The text that `paste` inserts.
    pub yank: Seq<char>,
    /// The edits that can be undone, the latest last.
    pub past: Seq<Step>,
    /// The edits that can be redone, the next one last.
    pub future: Seq<Step>,
    /// The width that rows wrap at: 0 as long as none is known, and -1 where
    /// they never wrap.
    pub layout: int,
}

/// How far the widget's edit history reaches back.
pub open spec fn history_limit() -> int {
    50
}

/// Where the line that holds offset `at` begins.
pub open spec fn line_start(text: Seq<char>, at: int) -> int
    decreases at,
{
    if at <= 0 || text[at - 1] == '\n' {
        at
    } else {
        line_start(text, at - 1)
    }
}

/// Where the line that holds offset `at` ends, its newline left out.
pub open spec fn line_end(text: Seq<char>, at: int) -> int
    decreases text.len() - at,
{
    if at >= text.len() || text[at] == '\n' {
        at
    } else {
        line_end(text, at + 1)
    }
}

/// The lines of a text.
pub open spec fn lines_of(text: Seq<char>) -> Seq<Seq<char>> {
    text::pieces(text, '\n')
}

/// The offset of column `col` of line `row`, every earlier line counted with
/// its newline.
pub open spec fn offset(lines: Seq<Seq<char>>, row: int, col: int) -> int
    decreases row,
{
    if row <= 0 {
        col
    } else {
        offset(lines, row - 1, lines[row - 1].len() as int) + 1 + col
    }
}

/// The offset of `(row, col)`, each made fit within the text.
pub open spec fn jump(text: Seq<char>, row: int, col: int) -> int {
    let lines = lines_of(text);
    let r = if row < lines.len() { row } else { lines.len() - 1 };
    let c = if col <= lines[r].len() { col } else { lines[r].len() as int };
    offset(lines, r, c)
}

/// `s` without the carriage returns that end a line.
pub open spec fn unreturned(s: Seq<char>) -> Seq<char>
    decreases s.len(),
{
    if s.len() == 0 {
        s
    } else if s[0] == '\r' && (s.len() == 1 || s[1] == '\n') {
        unreturned(s.skip(1))
    } else {
        seq![s[0]] + unreturned(s.skip(1))
    }
}

/// The characters that are one cell wide in every terminal, and newlines.
pub open spec fn plain(text: Seq<char>) -> bool {
    forall|i: int| 0 <= i < text.len() ==> text[i] == '\n' || ' ' <= #[trigger] text[i] <= '~'
}

/// The cursor motions the composer asks for.
#[derive(Debug, Clone, Copy)]
pub enum Motion {
    Back,
    Forward,
    Up,
    Down,
    WordBack,
    WordForward,
    WordEnd,
    Head,
    End,
    Bottom,
    Jump(u16, u16),
}

/// Where `TextArea::move_cursor` takes a cursor by one character, screen row
/// or word, given the text, the offset, the width that rows wrap at, and the
/// motion.
pub uninterp spec fn area_step(text: Seq<char>, at: int, layout: int, m: Motion) -> int;

/// Where the text that `TextArea::delete_word` removes before an offset begins.
pub uninterp spec fn area_word_cut(text: Seq<char>, at: int) -> int;

/// The screen row and column of an offset as `TextArea::screen_cursor` counts
/// them, given the width that rows wrap at.
pub uninterp spec fn area_screen(text: Seq<char>, at: int, layout: int) -> (usize, usize);

/// What a widget holds.
pub uninterp spec fn held(w: TextWidget) -> Area;

impl Area {
    /// The cursor and the selection's start lie within the text.
    pub open spec fn ok(self) -> bool {
        &&& 0 <= self.cursor <= self.text.len()
        &&& self.anchor matches Some(a) ==> 0 <= a <= self.text.len()
    }

    /// A wrapping widget that was just made with `text` in it.
    pub open spec fn fresh(text: Seq<char>) -> Area {
        Area {
            text,
            cursor: 0,
            anchor: None,
            yank: Seq::empty(),
            past: Seq::empty(),
            future: Seq::empty(),
            layout: 0,
        }
    }

    /// The selected range, where it is not empty.
    pub open spec fn selected(self) -> Option<(int, int)> {
        match self.anchor {
            Some(a) if a < self.cursor => Some((a, self.cursor)),
            Some(a) if a > self.cursor => Some((self.cursor, a)),
            _ => None,
        }
    }

    /// The edit to `text` with the cursor at `at` after it, entered in the
    /// history; undoing it puts the cursor at `before_at`. The oldest edit
    /// leaves a full history, and what could be redone is forgotten.
    pub open spec fn edited(self, text: Seq<char>, at: int, before_at: int) -> Area {
        let step = Step { before: self.text, before_at, after: text, after_at: at };
        let kept = if self.past.len() + self.future.len() == history_limit() && self.past.len() > 0 {
            self.past.skip(1)
        } else {
            self.past
        };
        Area {
            text,
            cursor: at,
            anchor: None,
            past: kept.push(step),
            future: Seq::empty(),
            ..self
        }
    }

    /// The range `[from, to)` removed.
    pub open spec fn removed(self, from: int, to: int) -> Area {
        self.edited(self.text.take(from) + self.text.skip(to), from, to)
    }

    pub open spec fn unselected(self) -> Area {
        Area { anchor: None, ..self }
    }

    /// The selected text removed, and the selection with it.
    pub open spec fn without_selection(self) -> Area {
        match self.selected() {
            Some((lo, hi)) => self.removed(lo, hi),
            None => self.unselected(),
        }
    }

    /// `s` typed over the selection.
    pub open spec fn inserted(self, s: Seq<char>) -> Area {
        let b = self.without_selection();
        if s.len() == 0 {
            b
        } else {
            b.edited(
                b.text.take(b.cursor) + s + b.text.skip(b.cursor),
                b.cursor + s.len(),
                b.cursor,
            )
        }
    }

    /// The character before the cursor removed, or the selection.
    pub open spec fn backspaced(self) -> Area {
        if self.selected() is Some {
            self.without_selection()
        } else if self.cursor > 0 {
            self.removed(self.cursor - 1, self.cursor)
        } else {
            self.unselected()
        }
    }

    /// The character after the cursor removed, or the selection.
    pub open spec fn deleted_forward(self) -> Area {
        let n = area_step(self.text, self.cursor, self.layout, Motion::Forward);
        if self.selected() is Some {
            self.without_selection()
        } else if n == self.cursor {
            self.unselected()
        } else {
            self.removed(n - 1, n)
        }
    }

    /// The word before the cursor removed, or the selection. A removed
    /// newline is not kept for pasting.
    pub open spec fn deleted_word(self) -> Area {
        let from = area_word_cut(self.text, self.cursor);
        if self.selected() is Some {
            self.without_selection()
        } else if self.cursor == 0 {
            self.unselected()
        } else if self.text[self.cursor - 1] == '\n' {
            self.removed(self.cursor - 1, self.cursor)
        } else {
            Area {
                yank: self.text.subrange(from, self.cursor),
                ..self.removed(from, self.cursor)
            }
        }
    }

    /// `n` characters from the cursor on removed and kept for pasting, or the
    /// selection removed.
    pub open spec fn deleted(self, n: int) -> Area {
        if self.selected() is Some {
            self.without_selection()
        } else if n == 0 {
            self.unselected()
        } else {
            Area {
                yank: self.text.subrange(self.cursor, self.cursor + n),
                ..self.removed(self.cursor, self.cursor + n)
            }
        }
    }

    /// Everything removed and kept for pasting.
    pub open spec fn cleared(self) -> Area {
        if self.text.len() == 0 {
            self
        } else {
            Area { yank: self.text, ..self.removed(0, self.text.len() as int) }
        }
    }

    /// The selection kept for pasting.
    pub open spec fn copied(self) -> Area {
        match self.selected() {
            Some((lo, hi)) => Area { yank: self.text.subrange(lo, hi), ..self.unselected() },
            None => self.unselected(),
        }
    }

    /// The selection removed and kept for pasting.
    pub open spec fn cut(self) -> Area {
        match self.selected() {
            Some((lo, hi)) => Area { yank: self.text.subrange(lo, hi), ..self.removed(lo, hi) },
            None => self.unselected(),
        }
    }

    pub open spec fn undone(self) -> Area {
        let step = self.past.last();
        if self.past.len() == 0 {
            self
        } else {
            Area {
                text: step.before,
                cursor: step.before_at,
                anchor: None,
                past: self.past.drop_last(),
                future: self.future.push(step),
                ..self
            }
        }
    }

    pub open spec fn redone(self) -> Area {
        let step = self.future.last();
        if self.future.len() == 0 {
            self
        } else {
            Area {
                text: step.after,
                cursor: step.after_at,
                anchor: None,
                past: self.past.push(step),
                future: self.future.drop_last(),
                ..self
            }
        }
    }

    /// Where a motion takes the cursor.
    pub open spec fn target(self, m: Motion) -> int {
        match m {
            Motion::Head => line_start(self.text, self.cursor),
            Motion::End => line_end(self.text, self.cursor),
            Motion::Bottom => jump(
                self.text,
                lines_of(self.text).len() - 1,
                self.cursor - line_start(self.text, self.cursor),
            ),
            Motion::Jump(row, col) => jump(self.text, row as int, col as int),
            _ => area_step(self.text, self.cursor, self.layout, m),
        }
    }

    /// The cursor moved; a selection that was started stays started.
    pub open spec fn moved(self, m: Motion) -> Area {
        Area { cursor: self.target(m), ..self }
    }
}

/// The history leads to the text: each edit starts from what the one before it
/// left, the latest left the text, and the next to be redone starts from it.
#[verifier::opaque]
pub open spec fn chained(past: Seq<Step>, future: Seq<Step>, text: Seq<char>) -> bool {
    &&& past.len() > 0 ==> past.last().after == text
    &&& future.len() > 0 ==> future.last().before == text
    &&& forall|i: int, j: int|
        0 <= i && j == i + 1 && j < past.len() ==> (#[trigger] past[i]).after == (
        #[trigger] past[j]).before
    &&& forall|i: int, j: int|
        0 <= i && j == i + 1 && j < future.len() ==> (#[trigger] future[i]).before == (
        #[trigger] future[j]).after
}

pub open spec fn coherent(a: Area) -> bool {
    chained(a.past, a.future, a.text)
}

/// An edit keeps the history coherent.
pub broadcast proof fn edit_is_coherent(a: Area, text: Seq<char>, at: int, before_at: int)
    requires
        coherent(a),
    ensures
        coherent(#[trigger] a.edited(text, at, before_at)),
{
    reveal(chained);
    let b = a.edited(text, at, before_at);
    let n = b.past.len() as int;
    let d = a.past.len() - (n - 1);
    assert forall|i: int, j: int| 0 <= i && j == i + 1 && j < n implies (#[trigger] b.past[i]).after
        == (#[trigger] b.past[j]).before by {
        assert(b.past[i] == a.past[i + d]);
        if j < n - 1 {
            assert(b.past[j] == a.past[j + d]);
        }
    }
}

/// A new text has no history.
pub broadcast proof fn new_is_coherent(text: Seq<char>)
    ensures
        coherent(#[trigger] Area::fresh(text)),
{
    reveal(chained);
}

/// Undoing keeps the history coherent.
pub broadcast proof fn undo_is_coherent(a: Area)
    requires
        coherent(a),
    ensures
        coherent(#[trigger] a.undone()),
{
    reveal(chained);
}

/// Redoing keeps the history coherent.
pub broadcast proof fn redo_is_coherent(a: Area)
    requires
        coherent(a),
    ensures
        coherent(#[trigger] a.redone()),
{
    reveal(chained);
}

pub broadcast group group_coherent {
    edit_is_coherent,
    new_is_coherent,
    undo_is_coherent,
    redo_is_coherent,
}

/// Every edit keeps the history coherent, and so does moving through it.
pub proof fn history_stays_coherent(a: Area, s: Seq<char>, n: int, m: Motion)
    requires
        coherent(a),
    ensures
        coherent(Area::fresh(s)),
        coherent(a.inserted(s)),
        coherent(a.backspaced()),
        coherent(a.deleted_forward()),
        coherent(a.deleted_word()),
        coherent(a.deleted(n)),
        coherent(a.cleared()),
        coherent(a.copied()),
        coherent(a.cut()),
        coherent(a.undone()),
        coherent(a.redone()),
        coherent(a.moved(m)),
{
    broadcast use group_coherent;
}

/// Redoing what was undone gives the text back, and undoing what was redone.
pub proof fn undo_and_redo_cancel(a: Area)
    requires
        coherent(a),
    ensures
        a.past.len() > 0 ==> ({
            let b = a.undone().redone();
            b.text == a.text && b.past == a.past && b.future == a.future
        }),
        a.future.len() > 0 ==> ({
            let b = a.redone().undone();
            b.text == a.text && b.past == a.past && b.future == a.future
        }),
{
    reveal(chained);
}

/// `TextArea::new`: the lines become the text, with the cursor at its start
/// and no history.
#[verifier::external_body]
pub(crate) fn new_area(lines: Vec<String>) -> (a: TextWidget)
    requires
        lines@.len() > 0,
        forall|i: int| 0 <= i < lines@.len() ==> !(#[trigger] lines@[i])@.contains('\n'),
    ensures
        held(a) == (Area {
            layout: -1,
            ..Area::fresh(text::joined(text::views(lines@), seq!['\n']))
        }),
{
    TextWidget { inner: TextArea::new(lines) }
}

/// `TextArea::set_wrap_mode` with glyph wrapping, on a widget that does not
/// wrap and was never drawn: rows wrap once a width is known.
#[verifier::external_body]
pub(crate) fn wrap_glyphs(a: &mut TextWidget)
    requires
        held(*old(a)).layout == -1,
    ensures
        held(*final(a)) == (Area { layout: 0, ..held(*old(a)) }),
{
    a.inner.set_wrap_mode(WrapMode::Glyph);
}

/// `TextArea::set_cursor_line_style`, to the style that underlines nothing:
/// what the widget holds stays as it is.
#[verifier::external_body]
pub(crate) fn plain_cursor_line(a: &mut TextWidget)
    ensures
        held(*final(a)) == held(*old(a)),
{
    a.inner.set_cursor_line_style(ratatui::style::Style::default());
}

/// `TextArea::set_selection_style`, to reversed cells: what the widget holds
/// stays as it is.
#[verifier::external_body]
pub(crate) fn reversed_selection(a: &mut TextWidget)
    ensures
        held(*final(a)) == held(*old(a)),
{
    a.inner.set_selection_style(
        ratatui::style::Style::default().add_modifier(ratatui::style::Modifier::REVERSED),
    );
}

/// `Widget::render` of `TextArea` into a scratch buffer of the given size: the
/// rows of a wrapping widget wrap at that width from here on, and a width of
/// zero cells is as none. The widget counts screen rows in 16 bits, the height
/// with them.
#[verifier::external_body]
pub(crate) fn area_draw(a: &mut TextWidget, width: u16, height: u16)
    requires
        held(*old(a)).layout >= 0,
        held(*old(a)).text.len() + height < u16::MAX,
    ensures
        held(*final(a)) == (Area { layout: width as int, ..held(*old(a)) }),
{
    let rect = ratatui::layout::Rect::new(0, 0, width, height);
    let mut buffer = ratatui::buffer::Buffer::empty(rect);
    ratatui::widgets::Widget::render(&a.inner, rect, &mut buffer);
}

/// `TextArea::lines`.
#[verifier::external_body]
pub(crate) fn area_lines(a: &TextWidget) -> (r: Vec<String>)
    ensures
        text::views(r@) == lines_of(held(*a).text),
        r@.len() > 0,
{
    a.inner.lines().to_vec()
}

/// `TextArea::is_empty`.
#[verifier::external_body]
pub(crate) fn area_is_empty(a: &TextWidget) -> (r: bool)
    ensures
        r == (held(*a).text.len() == 0),
{
    a.inner.is_empty()
}

/// `TextArea::cursor`: the line and column of the cursor.
#[verifier::external_body]
pub(crate) fn area_position(a: &TextWidget) -> (r: (usize, usize))
    ensures
        r.0 < lines_of(held(*a).text).len(),
        r.1 <= lines_of(held(*a).text)[r.0 as int].len(),
        offset(lines_of(held(*a).text), r.0 as int, r.1 as int) == held(*a).cursor,
{
    let c = a.inner.cursor();
    (c.0, c.1)
}

/// `TextArea::selection_range`: both ends of the selection in document order,
/// as lines and columns; there is one as soon as a selection was started.
#[verifier::external_body]
pub(crate) fn area_selection(a: &TextWidget) -> (r: Option<((usize, usize), (usize, usize))>)
    ensures
        r is Some == held(*a).anchor is Some,
        r matches Some((s, e)) ==> {
            let lines = lines_of(held(*a).text);
            let start = held(*a).anchor->0;
            let lo = if start < held(*a).cursor { start } else { held(*a).cursor };
            let hi = if start < held(*a).cursor { held(*a).cursor } else { start };
            &&& s.0 < lines.len() && s.1 <= lines[s.0 as int].len()
            &&& e.0 < lines.len() && e.1 <= lines[e.0 as int].len()
            &&& offset(lines, s.0 as int, s.1 as int) == lo
            &&& offset(lines, e.0 as int, e.1 as int) == hi
        },
{
    a.inner.selection_range()
}

/// `TextArea::screen_cursor`: the row and column of the cursor on the screen,
/// counted from the start of the text.
#[verifier::external_body]
pub(crate) fn area_screen_cursor(a: &TextWidget) -> (r: (usize, usize))
    ensures
        r == area_screen(held(*a).text, held(*a).cursor, held(*a).layout),
{
    let c = a.inner.screen_cursor();
    (c.row, c.col)
}

/// `TextArea::insert_char`: a carriage return counts as a newline.
#[verifier::external_body]
pub(crate) fn area_insert_char(a: &mut TextWidget, c: char)
    ensures
        held(*final(a)) == held(*old(a)).inserted(
            seq![if c == '\r' { '\n' } else { c }],
        ),
{
    a.inner.insert_char(c);
}

/// `TextArea::insert_str`: carriage returns that end a line are left out.
#[verifier::external_body]
pub(crate) fn area_insert_str(a: &mut TextWidget, s: &str)
    ensures
        held(*final(a)) == held(*old(a)).inserted(unreturned(s@)),
{
    a.inner.insert_str(s);
}

/// `TextArea::insert_newline`.
#[verifier::external_body]
pub(crate) fn area_insert_newline(a: &mut TextWidget)
    ensures
        held(*final(a)) == held(*old(a)).inserted(seq!['\n']),
{
    a.inner.insert_newline();
}

/// `TextArea::delete_char`.
#[verifier::external_body]
pub(crate) fn area_delete_char(a: &mut TextWidget)
    ensures
        held(*final(a)) == held(*old(a)).backspaced(),
{
    a.inner.delete_char();
}

/// `TextArea::delete_next_char`: it moves forward by one character and
/// deletes backward.
#[verifier::external_body]
pub(crate) fn area_delete_next_char(a: &mut TextWidget)
    ensures
        held(*final(a)) == held(*old(a)).deleted_forward(),
        steps_forward(held(*old(a))),
{
    a.inner.delete_next_char();
}

/// `TextArea::delete_word`: the word removed lies on the cursor's line.
#[verifier::external_body]
pub(crate) fn area_delete_word(a: &mut TextWidget)
    ensures
        held(*final(a)) == held(*old(a)).deleted_word(),
        ({
            let o = held(*old(a));
            o.cursor > 0 && o.text[o.cursor - 1] != '\n' ==> line_start(o.text, o.cursor)
                <= area_word_cut(o.text, o.cursor) < o.cursor
        }),
{
    a.inner.delete_word();
}

/// `TextArea::delete_str`, within the text.
#[verifier::external_body]
pub(crate) fn area_delete_str(a: &mut TextWidget, n: usize)
    requires
        held(*old(a)).cursor + n <= held(*old(a)).text.len(),
    ensures
        held(*final(a)) == held(*old(a)).deleted(n as int),
{
    a.inner.delete_str(n);
}

/// `TextArea::clear`, with no selection started.
#[verifier::external_body]
pub(crate) fn area_clear(a: &mut TextWidget)
    requires
        held(*old(a)).anchor is None,
    ensures
        held(*final(a)) == held(*old(a)).cleared(),
{
    a.inner.clear();
}

/// `TextArea::undo`.
#[verifier::external_body]
pub(crate) fn area_undo(a: &mut TextWidget) -> (r: bool)
    ensures
        held(*final(a)) == held(*old(a)).undone(),
        r == (held(*old(a)).past.len() > 0),
{
    a.inner.undo()
}

/// `TextArea::redo`.
#[verifier::external_body]
pub(crate) fn area_redo(a: &mut TextWidget) -> (r: bool)
    ensures
        held(*final(a)) == held(*old(a)).redone(),
        r == (held(*old(a)).future.len() > 0),
{
    a.inner.redo()
}

/// `TextArea::paste`: it tells whether there was anything to insert.
#[verifier::external_body]
pub(crate) fn area_paste(a: &mut TextWidget) -> (r: bool)
    ensures
        held(*final(a)) == held(*old(a)).inserted(held(*old(a)).yank),
        r == (held(*old(a)).yank.len() > 0),
{
    a.inner.paste()
}

/// `TextArea::copy`.
#[verifier::external_body]
pub(crate) fn area_copy(a: &mut TextWidget)
    ensures
        held(*final(a)) == held(*old(a)).copied(),
{
    a.inner.copy();
}

/// `TextArea::cut`.
#[verifier::external_body]
pub(crate) fn area_cut(a: &mut TextWidget)
    ensures
        held(*final(a)) == held(*old(a)).cut(),
{
    a.inner.cut();
}

/// `TextArea::start_selection`.
#[verifier::external_body]
pub(crate) fn area_start_selection(a: &mut TextWidget)
    ensures
        held(*final(a)) == (Area { anchor: Some(held(*old(a)).cursor), ..held(*old(a)) }),
{
    a.inner.start_selection();
}

/// `TextArea::cancel_selection`.
#[verifier::external_body]
pub(crate) fn area_cancel_selection(a: &mut TextWidget)
    ensures
        held(*final(a)) == held(*old(a)).unselected(),
{
    a.inner.cancel_selection();
}

/// `TextArea::is_selecting`.
#[verifier::external_body]
pub(crate) fn area_is_selecting(a: &TextWidget) -> (r: bool)
    ensures
        r == held(*a).anchor is Some,
{
    a.inner.is_selecting()
}

/// The motions by one character, screen row or word.
pub open spec fn by_step(m: Motion) -> bool {
    !(m is Head || m is End || m is Bottom || m is Jump)
}

/// A step forward stays within the text and goes back nowhere; over text of
/// one-cell characters it is one character.
pub open spec fn steps_forward(o: Area) -> bool {
    let n = area_step(o.text, o.cursor, o.layout, Motion::Forward);
    &&& o.cursor <= n <= o.text.len()
    &&& plain(o.text) ==> n == if o.cursor < o.text.len() { o.cursor + 1 } else { o.cursor }
}

/// `TextArea::move_cursor`. A motion stays within the text and goes its own
/// way or nowhere; over text of one-cell characters, back and forward are one
/// character. What lies between is the widget's.
#[verifier::external_body]
pub(crate) fn area_move(a: &mut TextWidget, m: Motion)
    ensures
        held(*final(a)) == held(*old(a)).moved(m),
        by_step(m) ==> held(*final(a)).cursor == area_step(
            held(*old(a)).text,
            held(*old(a)).cursor,
            held(*old(a)).layout,
            m,
        ),
        0 <= held(*final(a)).cursor <= held(*old(a)).text.len(),
        m is Forward ==> steps_forward(held(*old(a))),
        m is Back || m is Up || m is WordBack ==> held(*final(a)).cursor <= held(*old(a)).cursor,
        m is Down || m is WordForward || m is WordEnd ==> held(*final(a)).cursor >= held(
            *old(a),
        ).cursor,
        m is Back && plain(held(*old(a)).text) && held(*old(a)).cursor > 0 ==> held(
            *final(a),
        ).cursor == held(*old(a)).cursor - 1,
{
    a.inner.move_cursor(match m {
        Motion::Back => CursorMove::Back,
        Motion::Forward => CursorMove::Forward,
        Motion::Up => CursorMove::Up,
        Motion::Down => CursorMove::Down,
        Motion::WordBack => CursorMove::WordBack,
        Motion::WordForward => CursorMove::WordForward,
        Motion::WordEnd => CursorMove::WordEnd,
        Motion::Head => CursorMove::Head,
        Motion::End => CursorMove::End,
        Motion::Bottom => CursorMove::Bottom,
        Motion::Jump(row, col) => CursorMove::Jump(row, col),
    });
}

} // verus!
