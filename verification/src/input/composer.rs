//! The composer's editor: the text widget plus prompt history and the layout
//! mirror.

use vstd::prelude::*;
use vstd::string::*;
use crate::input::area;
use crate::input::area::{
    area_cancel_selection, area_clear, area_copy, area_cut, area_delete_char,
    area_delete_next_char, area_delete_str, area_delete_word, area_draw, area_insert_char,
    area_insert_newline, area_insert_str, area_is_empty, area_is_selecting, area_lines, area_move,
    area_paste, area_position, area_redo, area_screen_cursor, area_selection,
    area_start_selection, area_undo, new_area, plain_cursor_line, reversed_selection, wrap_glyphs,
    Area, Motion, TextWidget,
};
use crate::input::layout;
use crate::input::layout::{Layout, LayoutMap, Mirror};
use crate::text;
use crate::text::{chars, join, split, string_of};

verus! {

/// The editor: the draft with its cursor and edit history, the prompts that
/// were sent before, and the layout mirror.
pub struct ComposerEditor {
    pub textarea: TextWidget,
    pub history: Vec<String>,
    pub hist_pos: Option<usize>,
    pub stash: String,
    pub layout: Option<Mirror>,
    /// First text row shown, in step with the widget's viewport.
    pub scroll_top: usize,
}

/// What an editor holds.
#[verifier::ext_equal]
pub struct Composer {
    pub area: Area,
    pub history: Seq<Seq<char>>,
    pub hist_pos: Option<usize>,
    pub stash: Seq<char>,
    pub layout: Option<Layout>,
    pub scroll_top: usize,
}

impl View for ComposerEditor {
    type V = Composer;

    open spec fn view(&self) -> Composer {
        Composer {
            area: area::held(self.textarea),
            history: text::views(self.history@),
            hist_pos: self.hist_pos,
            stash: self.stash@,
            layout: match self.layout {
                Some(l) => Some(l.shows()),
                None => None,
            },
            scroll_top: self.scroll_top,
        }
    }
}

/// The line and column of an offset; one past the end is the end.
pub open spec fn locate(lines: Seq<Seq<char>>, at: int) -> (int, int)
    decreases lines.len(),
{
    if lines.len() == 0 {
        (0, 0)
    } else if at <= lines[0].len() {
        (0, at)
    } else if lines.len() == 1 {
        (0, lines[0].len() as int)
    } else {
        let (r, c) = locate(lines.skip(1), at - lines[0].len() - 1);
        (r + 1, c)
    }
}

/// The offset that a jump to the line and column of `at` reaches. The widget
/// takes lines and columns of sixteen bits, so it is `at` itself only where
/// both fit.
pub open spec fn landing(text: Seq<char>, at: int) -> int {
    let (row, col) = locate(area::lines_of(text), at);
    area::jump(text, row % 65536, col % 65536)
}

impl Composer {
    /// The widget changed: the layout mirror is stale.
    pub open spec fn with(self, area: Area) -> Composer {
        Composer { area, layout: None, ..self }
    }

    /// An edit ends the walk through the prompt history.
    pub open spec fn edited(self, area: Area) -> Composer {
        Composer { hist_pos: None, ..self.with(area) }
    }

    /// A plain move cancels the selection.
    pub open spec fn moved(self, m: Motion) -> Composer {
        self.with(self.area.unselected().moved(m))
    }

    /// A selecting move starts a selection where there is none.
    pub open spec fn extended(self, m: Motion) -> Composer {
        let a = if self.area.anchor is None {
            Area { anchor: Some(self.area.cursor), ..self.area }
        } else {
            self.area
        };
        self.with(a.moved(m))
    }

    /// The cursor put at an offset.
    pub open spec fn at(self, offset: int) -> Composer {
        self.with(
            Area { cursor: landing(self.area.text, offset), ..self.area.unselected() },
        )
    }

    /// The draft replaced, with the cursor at its end.
    pub open spec fn replaced(self, text: Seq<char>) -> Composer {
        Composer {
            scroll_top: 0,
            ..self.with(Area { cursor: text.len() as int, ..Area::fresh(text) })
        }
    }

    /// An empty draft.
    pub open spec fn emptied(self) -> Composer {
        self.edited(self.area.unselected().cleared())
    }

    /// The range `[start, end)` removed, as far as it lies in the text.
    pub open spec fn cut_range(self, start: int, end: int) -> Composer {
        let a = Area { cursor: landing(self.area.text, start), ..self.area.unselected() };
        let wanted = if end > start { end - start } else { 0 };
        let n = if a.cursor + wanted <= a.text.len() { wanted } else { a.text.len() - a.cursor };
        self.edited(a.deleted(n))
    }

    /// The layout mirror at a width.
    pub open spec fn mirror(self, width: int) -> Layout {
        layout::layout_of(area::lines_of(self.area.text), width)
    }

    pub open spec fn mirrored(self, width: int) -> Composer {
        Composer { layout: Some(self.mirror(width)), ..self }
    }

    /// The screen row that shows the cursor.
    pub open spec fn cursor_row(self, width: int) -> Option<int> {
        self.mirror(width).first_owner(0, self.area.cursor)
    }

    /// The cursor at the start of its screen row.
    pub open spec fn to_row_start(self, width: int) -> Composer {
        match self.cursor_row(width) {
            Some(i) => self.at(self.mirror(width).rows[i].start),
            None => self.mirrored(width),
        }
    }

    /// The cursor at the end of its screen row.
    pub open spec fn to_row_end(self, width: int) -> Composer {
        match self.cursor_row(width) {
            Some(i) => self.at(self.mirror(width).rows[i].end),
            None => self.mirrored(width),
        }
    }

    /// The text from the cursor to the end of its screen row removed.
    pub open spec fn killed_to_end(self, width: int) -> Composer {
        match self.cursor_row(width) {
            Some(i) => {
                let end = self.mirror(width).rows[i].end;
                let last = if end <= self.area.text.len() {
                    end
                } else {
                    self.area.text.len() as int
                };
                if end > self.area.cursor {
                    self.edited(self.area.unselected().deleted(last - self.area.cursor))
                } else {
                    self.mirrored(width)
                }
            },
            None => self.mirrored(width),
        }
    }

    /// The text from the start of its screen row to the cursor removed.
    pub open spec fn killed_to_start(self, width: int) -> Composer {
        match self.cursor_row(width) {
            Some(i) => {
                let start = self.mirror(width).rows[i].start;
                if start < self.area.cursor {
                    self.cut_range(start, self.area.cursor)
                } else {
                    self.mirrored(width)
                }
            },
            None => self.mirrored(width),
        }
    }

    /// The logical line under the cursor removed: with its newline, or, for
    /// the last line, with the newline before it, the cursor then on the line
    /// above. A lone empty line stays.
    pub open spec fn line_killed(self) -> Composer {
        let lines = area::lines_of(self.area.text);
        let row = locate(lines, self.area.cursor).0;
        let start = area::offset(lines, row, 0);
        let n = lines[row].len() as int;
        if row + 1 < lines.len() {
            self.cut_range(start, start + n + 1)
        } else if row > 0 {
            let c = self.cut_range(start - 1, start + n);
            c.with(c.area.moved(Motion::Jump(((row - 1) % 65536) as u16, 0)))
        } else if n > 0 {
            self.cut_range(start, start + n)
        } else {
            self
        }
    }

    /// The text between the ends of a started selection.
    pub open spec fn selection(self) -> Option<Seq<char>> {
        match self.area.anchor {
            Some(a) if a < self.area.cursor => Some(self.area.text.subrange(a, self.area.cursor)),
            Some(a) => Some(self.area.text.subrange(self.area.cursor, a)),
            None => None,
        }
    }

    /// The last edit undone, if there is one.
    pub open spec fn undone(self) -> Composer {
        if self.area.past.len() > 0 {
            self.edited(self.area.undone())
        } else {
            self.with(self.area)
        }
    }

    /// The last undone edit made again, if there is one.
    pub open spec fn redone(self) -> Composer {
        if self.area.future.len() > 0 {
            self.edited(self.area.redone())
        } else {
            self.with(self.area)
        }
    }

    /// What was last killed inserted over the selection.
    pub open spec fn pasted(self) -> Composer {
        let a = self.area.inserted(self.area.yank);
        if self.area.yank.len() > 0 {
            self.edited(a)
        } else {
            self.with(a)
        }
    }

    /// A prompt entered in the history.
    pub open spec fn remembered(self, text: Seq<char>) -> Composer {
        Composer { history: self.history.push(text), ..self }
    }
}

/// Undoing typed text gives back the draft and the cursor before it.
pub proof fn undo_takes_typing_back(c: Composer, s: Seq<char>)
    requires
        c.area.ok(),
        c.area.selected() is None,
        s.len() > 0,
    ensures
        ({
            let typed = c.edited(c.area.inserted(s));
            &&& typed.undone().area.text == c.area.text
            &&& typed.undone().area.cursor == c.area.cursor
            &&& typed.undone().redone().area.text == typed.area.text
            &&& typed.undone().redone().area.cursor == typed.area.cursor
        }),
{
}

/// Pasting right after a kill gives the draft back.
pub proof fn paste_gives_a_kill_back(c: Composer, start: int, end: int)
    requires
        c.area.ok(),
        start < end,
        0 <= landing(c.area.text, start) < c.area.text.len(),
    ensures
        c.cut_range(start, end).pasted().area.text == c.area.text,
        c.cut_range(start, end).area.text.len() < c.area.text.len(),
{
    let a = Area { cursor: landing(c.area.text, start), ..c.area.unselected() };
    let n = if a.cursor + (end - start) <= a.text.len() {
        end - start
    } else {
        a.text.len() - a.cursor
    };
    let killed = c.cut_range(start, end).area;
    let cut = a.text.subrange(a.cursor, a.cursor + n);
    assert(killed.yank == cut);
    assert(killed.text.take(a.cursor) + cut + killed.text.skip(a.cursor) == a.text);
}

/// The text between two offsets in either order, as far as it reaches.
pub open spec fn between(text: Seq<char>, a: int, b: int) -> Seq<char> {
    let lo = if a <= b { a } else { b };
    let hi = if a <= b { b } else { a };
    let from = if lo <= text.len() { lo } else { text.len() as int };
    let to = if hi <= text.len() { hi } else { text.len() as int };
    text.subrange(from, to)
}

/// The scroll top that keeps the cursor's row in a viewport of `height` rows.
pub open spec fn next_scroll_top(prev: int, cursor: int, height: int) -> int {
    if cursor < prev {
        cursor
    } else if prev + height <= cursor {
        cursor + 1 - height
    } else {
        prev
    }
}

/// Going to the start of the row stays in the row, and going there again moves
/// nothing, as far as the widget can be told where the row starts.
pub proof fn row_start_is_reached_once(c: Composer, width: int)
    requires
        c.area.ok(),
        c.mirror(width).paved(),
        c.cursor_row(width) matches Some(i) ==> landing(
            c.area.text,
            c.mirror(width).rows[i].start,
        ) == c.mirror(width).rows[i].start,
    ensures
        c.cursor_row(width) is Some,
        c.to_row_start(width).cursor_row(width) == c.cursor_row(width),
        c.to_row_start(width).to_row_start(width) == c.to_row_start(width),
{
    text::join_pieces(c.area.text, '\n');
    layout::row_start_stays_in_its_row(c.mirror(width), c.area.cursor);
}

/// Following the cursor keeps its row in the viewport, and a cursor that is in
/// it moves nothing.
pub proof fn scroll_keeps_the_cursor_in_view(prev: int, cursor: int, height: int)
    requires
        0 <= prev,
        0 <= cursor,
        height >= 1,
    ensures
        next_scroll_top(prev, cursor, height) <= cursor < next_scroll_top(prev, cursor, height)
            + height,
        0 <= next_scroll_top(prev, cursor, height),
        prev <= cursor < prev + height ==> next_scroll_top(prev, cursor, height) == prev,
{
}

/// A line and column found by `locate` are those of the offset.
pub proof fn locate_is_offset(lines: Seq<Seq<char>>, at: int)
    requires
        lines.len() > 0,
        at >= 0,
    ensures
        ({
            let (r, c) = locate(lines, at);
            let total = text::joined(lines, seq!['\n']).len();
            &&& 0 <= r < lines.len()
            &&& 0 <= c <= lines[r].len()
            &&& area::offset(lines, r, c) == if at <= total { at } else { total as int }
        }),
    decreases lines.len(),
{
    reveal_with_fuel(area::offset, 2);
    if at > lines[0].len() && lines.len() > 1 {
        let rest = lines.skip(1);
        locate_is_offset(rest, at - lines[0].len() - 1);
        let (r, c) = locate(rest, at - lines[0].len() - 1);
        layout::offset_shift(lines, r + 1, c);
    } else if at <= lines[0].len() {
        layout::offset_in_joined(lines, 0, at);
    }
}

/// An offset has one line and column.
pub proof fn offset_is_located(lines: Seq<Seq<char>>, row: int, col: int)
    requires
        0 <= row < lines.len(),
        0 <= col <= lines[row].len(),
    ensures
        locate(lines, area::offset(lines, row, col)) == (row, col),
    decreases lines.len(),
{
    reveal_with_fuel(area::offset, 2);
    if row > 0 {
        let rest = lines.skip(1);
        layout::offset_shift(lines, row, col);
        layout::offset_in_joined(rest, row - 1, col);
        offset_is_located(rest, row - 1, col);
    }
}

/// Where every line number and column fits sixteen bits, the cursor lands
/// where it is put.
pub proof fn landing_is_exact(text: Seq<char>, at: int)
    requires
        0 <= at <= text.len(),
        area::lines_of(text).len() <= 65536,
        forall|i: int| 0 <= i < area::lines_of(text).len() ==> (#[trigger] area::lines_of(text)[i]).len() < 65536,
    ensures
        landing(text, at) == at,
{
    text::join_pieces(text, '\n');
    locate_is_offset(area::lines_of(text), at);
}

/// The line and column of an offset lie within the text.
proof fn landing_in_text(text: Seq<char>, at: int)
    requires
        at >= 0,
    ensures
        0 <= landing(text, at) <= text.len(),
{
    text::join_pieces(text, '\n');
    let lines = area::lines_of(text);
    locate_is_offset(lines, at);
    let (row, col) = locate(lines, at);
    jump_in_text(text, row % 65536, col % 65536);
}

/// A jump lands within the text.
pub proof fn jump_in_text(text: Seq<char>, row: int, col: int)
    requires
        row >= 0,
        col >= 0,
    ensures
        0 <= area::jump(text, row, col) <= text.len(),
{
    text::join_pieces(text, '\n');
    let lines = area::lines_of(text);
    let r = if row < lines.len() { row } else { lines.len() - 1 };
    let c = if col <= lines[r].len() { col } else { lines[r].len() as int };
    layout::offset_in_joined(lines, r, c);
}

impl ComposerEditor {
    pub fn new() -> (r: Self)
        ensures
            r@ == (Composer {
                area: Area::fresh(Seq::empty()),
                history: Seq::empty(),
                hist_pos: None,
                stash: Seq::empty(),
                layout: None,
                scroll_top: 0,
            }),
    {
        let mut lines: Vec<String> = Vec::new();
        lines.push(String::new());
        assert(text::views(lines@) == seq![Seq::<char>::empty()]);
        let mut textarea = new_area(lines);
        wrap_glyphs(&mut textarea);
        plain_cursor_line(&mut textarea);
        reversed_selection(&mut textarea);
        let history: Vec<String> = Vec::new();
        assert(text::views(history@) == Seq::<Seq<char>>::empty());
        ComposerEditor {
            textarea,
            history,
            hist_pos: None,
            stash: String::new(),
            layout: None,
            scroll_top: 0,
        }
    }

    /// The widget drawn into a well of the given size: it wraps at that width
    /// from here on.
    pub fn draw(&mut self, width: u16, height: u16)
        requires
            old(self)@.area.layout >= 0,
            old(self)@.area.text.len() + height < u16::MAX,
        ensures
            final(self)@ == old(self)@.with(
                Area { layout: width as int, ..old(self)@.area },
            ),
    {
        self.layout = None;
        area_draw(&mut self.textarea, width, height);
    }

    // --- text access ----------------------------------------------------

    pub fn lines(&self) -> (r: Vec<String>)
        ensures
            text::views(r@) == area::lines_of(self@.area.text),
            r@.len() > 0,
    {
        area_lines(&self.textarea)
    }

    /// The whole draft, newlines kept.
    pub fn buf(&self) -> (r: String)
        ensures
            r@ == self@.area.text,
    {
        let lines = area_lines(&self.textarea);
        proof {
            text::join_pieces(self@.area.text, '\n');
            reveal_strlit("\n");
            assert("\n"@ == seq!['\n']);
        }
        join(&lines, "\n")
    }

    pub fn is_empty(&self) -> (r: bool)
        ensures
            r == (self@.area.text.len() == 0),
    {
        area_is_empty(&self.textarea)
    }

    /// The cursor's offset, newlines counted.
    pub fn cursor_char(&self) -> (r: usize)
        ensures
            r == self@.area.cursor,
            r <= self@.area.text.len() <= usize::MAX,
    {
        let whole = self.buf();
        let total: usize = whole.as_str().unicode_len();
        let lines = area_lines(&self.textarea);
        let (row, col) = area_position(&self.textarea);
        let ghost text = area::lines_of(self@.area.text);
        proof {
            text::join_pieces(self@.area.text, '\n');
            layout::offset_in_joined(text, row as int, col as int);
        }
        line_offset(&lines, row, total) + col
    }

    /// The line and column of an offset; one past the end is the end.
    pub fn char_to_rowcol(&self, offset: usize) -> (r: (usize, usize))
        ensures
            (r.0 as int, r.1 as int) == locate(area::lines_of(self@.area.text), offset as int),
            r.0 < area::lines_of(self@.area.text).len(),
            r.1 <= area::lines_of(self@.area.text)[r.0 as int].len(),
    {
        let lines = area_lines(&self.textarea);
        let ghost text = text::views(lines@);
        let mut left: usize = offset;
        let mut row: usize = 0;
        assert(text.skip(0) == text);
        loop
            invariant
                text == text::views(lines@),
                text == area::lines_of(self@.area.text),
                row < lines.len(),
                ({
                    let (r, c) = locate(text.skip(row as int), left as int);
                    locate(text, offset as int) == (r + row, c)
                }),
            decreases lines.len() - row,
        {
            let n: usize = lines[row].as_str().unicode_len();
            assert(text.skip(row as int)[0] == text[row as int]);
            if left <= n {
                return (row, left);
            }
            if row + 1 == lines.len() {
                return (row, n);
            }
            assert(text.skip(row as int).skip(1) == text.skip(row as int + 1));
            left = left - n - 1;
            row += 1;
        }
    }

    /// The text between two offsets in either order.
    pub fn chars_between(&self, a: usize, b: usize) -> (r: String)
        ensures
            r@ == between(self@.area.text, a as int, b as int),
    {
        let v = chars(self.buf().as_str());
        let lo: usize = if a <= b {
            a
        } else {
            b
        };
        let hi: usize = if a <= b {
            b
        } else {
            a
        };
        let from: usize = if lo <= v.len() {
            lo
        } else {
            v.len()
        };
        let to: usize = if hi <= v.len() {
            hi
        } else {
            v.len()
        };
        string_of(&v, from, to)
    }

    // --- editing --------------------------------------------------------

    pub fn insert_char(&mut self, ch: char)
        ensures
            final(self)@ == old(self)@.edited(
                old(self)@.area.inserted(seq![if ch == '\r' { '\n' } else { ch }]),
            ),
    {
        self.layout = None;
        area_insert_char(&mut self.textarea, ch);
        self.hist_pos = None;
    }

    pub fn insert_str(&mut self, s: &str)
        ensures
            final(self)@ == old(self)@.edited(old(self)@.area.inserted(area::unreturned(s@))),
    {
        self.layout = None;
        area_insert_str(&mut self.textarea, s);
        self.hist_pos = None;
    }

    pub fn insert_newline(&mut self)
        ensures
            final(self)@ == old(self)@.edited(old(self)@.area.inserted(seq!['\n'])),
    {
        self.layout = None;
        area_insert_newline(&mut self.textarea);
        self.hist_pos = None;
    }

    pub fn backspace(&mut self)
        ensures
            final(self)@ == old(self)@.edited(old(self)@.area.backspaced()),
    {
        self.layout = None;
        area_delete_char(&mut self.textarea);
        self.hist_pos = None;
    }

    pub fn delete_forward(&mut self)
        ensures
            final(self)@ == old(self)@.edited(old(self)@.area.deleted_forward()),
            area::steps_forward(old(self)@.area),
    {
        self.layout = None;
        area_delete_next_char(&mut self.textarea);
        self.hist_pos = None;
    }

    pub fn delete_word_back(&mut self)
        ensures
            final(self)@ == old(self)@.edited(old(self)@.area.deleted_word()),
    {
        self.layout = None;
        area_delete_word(&mut self.textarea);
        self.hist_pos = None;
    }

    /// The range `[start, end)` removed. A selection is cancelled first, so
    /// that the range asked for is what goes.
    pub fn delete_char_range(&mut self, start: usize, end: usize)
        ensures
            final(self)@ == old(self)@.cut_range(start as int, end as int),
    {
        self.set_cursor_char(start);
        proof {
            landing_in_text(old(self)@.area.text, start as int);
        }
        let total: usize = self.buf().as_str().unicode_len();
        let at: usize = self.cursor_char();
        let wanted: usize = if end > start {
            end - start
        } else {
            0
        };
        let n: usize = if wanted <= total - at {
            wanted
        } else {
            total - at
        };
        area_delete_str(&mut self.textarea, n);
        self.hist_pos = None;
    }

    /// The whole logical line under the cursor removed.
    pub fn kill_line(&mut self)
        ensures
            final(self)@ == old(self)@.line_killed(),
    {
        let total: usize = self.buf().as_str().unicode_len();
        let lines = area_lines(&self.textarea);
        let (row, col) = area_position(&self.textarea);
        let ghost text = area::lines_of(self@.area.text);
        proof {
            text::join_pieces(self@.area.text, '\n');
            offset_is_located(text, row as int, col as int);
            layout::offset_in_joined(text, row as int, text[row as int].len() as int);
            if row + 1 < text.len() {
                layout::offset_in_joined(text, row as int + 1, 0);
                reveal_with_fuel(area::offset, 2);
            }
            if row > 0 {
                reveal_with_fuel(area::offset, 2);
                layout::offset_in_joined(text, row as int - 1, text[row as int - 1].len() as int);
            }
        }
        let start: usize = line_offset(&lines, row, total);
        let n: usize = lines[row].as_str().unicode_len();
        if row + 1 < lines.len() {
            self.delete_char_range(start, start + n + 1);
        } else if row > 0 {
            self.delete_char_range(start - 1, start + n);
            self.layout = None;
            area_move(&mut self.textarea, Motion::Jump(((row - 1) % 65536) as u16, 0));
        } else if n > 0 {
            self.delete_char_range(start, start + n);
        }
    }

    /// The last edit undone; tells whether there was one.
    pub fn undo(&mut self) -> (r: bool)
        ensures
            r == (old(self)@.area.past.len() > 0),
            final(self)@ == old(self)@.undone(),
    {
        self.layout = None;
        let done = area_undo(&mut self.textarea);
        if done {
            self.hist_pos = None;
        }
        done
    }

    /// The last undone edit made again; tells whether there was one.
    pub fn redo(&mut self) -> (r: bool)
        ensures
            r == (old(self)@.area.future.len() > 0),
            final(self)@ == old(self)@.redone(),
    {
        self.layout = None;
        let done = area_redo(&mut self.textarea);
        if done {
            self.hist_pos = None;
        }
        done
    }

    /// What was last killed inserted at the cursor; tells whether there was
    /// anything.
    pub fn paste_yank(&mut self) -> (r: bool)
        ensures
            r == (old(self)@.area.yank.len() > 0),
            final(self)@ == old(self)@.pasted(),
    {
        self.layout = None;
        let done = area_paste(&mut self.textarea);
        if done {
            self.hist_pos = None;
        }
        done
    }

    /// The draft emptied, whatever is selected in it.
    pub fn clear(&mut self)
        ensures
            final(self)@ == old(self)@.emptied(),
    {
        area_cancel_selection(&mut self.textarea);
        area_clear(&mut self.textarea);
        self.hist_pos = None;
        self.layout = None;
    }

    /// The draft replaced; the cursor lands at its end. The walk through the
    /// prompt history goes on.
    pub fn set(&mut self, s: String)
        ensures
            final(self)@ == old(self)@.replaced(s@),
    {
        let lines = split(s.as_str(), '\n');
        proof {
            text::join_pieces(s@, '\n');
            assert forall|i: int| 0 <= i < lines@.len() implies !(#[trigger] lines@[i])@.contains(
                '\n',
            ) by {
                assert(text::views(lines@)[i] == lines@[i]@);
            }
        }
        let mut textarea = new_area(lines);
        wrap_glyphs(&mut textarea);
        plain_cursor_line(&mut textarea);
        reversed_selection(&mut textarea);
        let ghost all = area::lines_of(s@);
        let ghost last = all.len() - 1;
        area_move(&mut textarea, Motion::Bottom);
        proof {
            layout::offset_in_joined(all, last, 0);
            layout::offset_in_joined(all, last, all[last].len() as int);
            end_of_last_line(s@);
        }
        area_move(&mut textarea, Motion::End);
        self.textarea = textarea;
        self.layout = None;
        self.scroll_top = 0;
    }

    // --- cursor motions -------------------------------------------------

    fn plain_move(&mut self, m: Motion)
        ensures
            final(self)@ == old(self)@.moved(m),
    {
        self.layout = None;
        area_cancel_selection(&mut self.textarea);
        area_move(&mut self.textarea, m);
    }

    pub fn move_left(&mut self)
        ensures
            final(self)@ == old(self)@.moved(Motion::Back),
    {
        self.plain_move(Motion::Back);
    }

    pub fn move_right(&mut self)
        ensures
            final(self)@ == old(self)@.moved(Motion::Forward),
    {
        self.plain_move(Motion::Forward);
    }

    /// Up by one screen row, soft wraps counted.
    pub fn move_up(&mut self)
        ensures
            final(self)@ == old(self)@.moved(Motion::Up),
    {
        self.plain_move(Motion::Up);
    }

    /// Down by one screen row, soft wraps counted.
    pub fn move_down(&mut self)
        ensures
            final(self)@ == old(self)@.moved(Motion::Down),
    {
        self.plain_move(Motion::Down);
    }

    pub fn word_left(&mut self)
        ensures
            final(self)@ == old(self)@.moved(Motion::WordBack),
    {
        self.plain_move(Motion::WordBack);
    }

    pub fn word_right(&mut self)
        ensures
            final(self)@ == old(self)@.moved(Motion::WordForward),
    {
        self.plain_move(Motion::WordForward);
    }

    pub fn word_end(&mut self)
        ensures
            final(self)@ == old(self)@.moved(Motion::WordEnd),
    {
        self.plain_move(Motion::WordEnd);
    }

    /// To the head of the logical line.
    pub fn line_head(&mut self)
        ensures
            final(self)@ == old(self)@.moved(Motion::Head),
    {
        self.plain_move(Motion::Head);
    }

    /// To the end of the logical line.
    pub fn line_tail(&mut self)
        ensures
            final(self)@ == old(self)@.moved(Motion::End),
    {
        self.plain_move(Motion::End);
    }

    /// To the head of the first line.
    pub fn jump_top(&mut self)
        ensures
            final(self)@ == old(self)@.moved(Motion::Jump(0, 0)),
    {
        self.plain_move(Motion::Jump(0, 0));
    }

    /// To the head of the last line.
    pub fn jump_bottom(&mut self)
        ensures
            final(self)@ == old(self)@.moved(Motion::Jump(u16::MAX, 0)),
    {
        self.plain_move(Motion::Jump(u16::MAX, 0));
    }

    pub fn set_cursor_char(&mut self, offset: usize)
        ensures
            final(self)@ == old(self)@.at(offset as int),
    {
        let (row, col) = self.char_to_rowcol(offset);
        self.plain_move(Motion::Jump((row % 65536) as u16, (col % 65536) as u16));
    }

    // --- text selection ---------------------------------------------------

    fn select_move(&mut self, m: Motion)
        ensures
            final(self)@ == old(self)@.extended(m),
    {
        self.layout = None;
        if !area_is_selecting(&self.textarea) {
            area_start_selection(&mut self.textarea);
        }
        area_move(&mut self.textarea, m);
    }

    pub fn select_left(&mut self)
        ensures
            final(self)@ == old(self)@.extended(Motion::Back),
    {
        self.select_move(Motion::Back);
    }

    pub fn select_right(&mut self)
        ensures
            final(self)@ == old(self)@.extended(Motion::Forward),
    {
        self.select_move(Motion::Forward);
    }

    pub fn select_up(&mut self)
        ensures
            final(self)@ == old(self)@.extended(Motion::Up),
    {
        self.select_move(Motion::Up);
    }

    pub fn select_down(&mut self)
        ensures
            final(self)@ == old(self)@.extended(Motion::Down),
    {
        self.select_move(Motion::Down);
    }

    pub fn select_word_left(&mut self)
        ensures
            final(self)@ == old(self)@.extended(Motion::WordBack),
    {
        self.select_move(Motion::WordBack);
    }

    pub fn select_word_right(&mut self)
        ensures
            final(self)@ == old(self)@.extended(Motion::WordForward),
    {
        self.select_move(Motion::WordForward);
    }

    pub fn select_line_start(&mut self)
        ensures
            final(self)@ == old(self)@.extended(Motion::Head),
    {
        self.select_move(Motion::Head);
    }

    pub fn select_line_end(&mut self)
        ensures
            final(self)@ == old(self)@.extended(Motion::End),
    {
        self.select_move(Motion::End);
    }

    /// The selected text, `None` where no selection was started.
    pub fn selection_text(&self) -> (r: Option<String>)
        ensures
            match r {
                Some(t) => self@.selection() == Some(t@),
                None => self@.selection() is None,
            },
    {
        match area_selection(&self.textarea) {
            None => None,
            Some((s, e)) => {
                let whole = chars(self.buf().as_str());
                let lines = area_lines(&self.textarea);
                let ghost text = area::lines_of(self@.area.text);
                proof {
                    text::join_pieces(self@.area.text, '\n');
                    layout::offset_in_joined(text, s.0 as int, s.1 as int);
                    layout::offset_in_joined(text, e.0 as int, e.1 as int);
                }
                let from: usize = line_offset(&lines, s.0, whole.len()) + s.1;
                let to: usize = line_offset(&lines, e.0, whole.len()) + e.1;
                Some(string_of(&whole, from, to))
            },
        }
    }

    /// The selection kept for pasting.
    pub fn copy_selection_to_yank(&mut self)
        ensures
            final(self)@ == old(self)@.with(old(self)@.area.copied()),
    {
        self.layout = None;
        area_copy(&mut self.textarea);
    }

    /// The selection removed and kept for pasting.
    pub fn cut_selection_to_yank(&mut self)
        ensures
            final(self)@ == old(self)@.edited(old(self)@.area.cut()),
    {
        self.layout = None;
        area_cut(&mut self.textarea);
        self.hist_pos = None;
    }

    // --- screen rows ------------------------------------------------------

    /// The layout mirror, made anew when stale: after an edit, and for another
    /// width.
    pub fn refresh_layout(&mut self, wrap_width: usize)
        ensures
            final(self)@ == old(self)@.mirrored(wrap_width as int),
            final(self)@.layout == Some(
                layout::layout_of(area::lines_of(old(self)@.area.text), wrap_width as int),
            ),
            final(self).layout is Some,
    {
        let whole = self.buf();
        let total: usize = whole.as_str().unicode_len();
        let lines = area_lines(&self.textarea);
        proof {
            text::join_pieces(self@.area.text, '\n');
        }
        let fresh = match &self.layout {
            Some(m) => m.is_fresh(&lines, wrap_width),
            None => false,
        };
        if !fresh {
            self.layout = Some(Mirror::new(lines, wrap_width));
        }
    }

    /// The offset a click on cell `(row, col)` means, rows counted from the
    /// start of the text.
    pub fn screen_to_char(&mut self, wrap_width: usize, row: usize, col: usize) -> (r: usize)
        ensures
            final(self)@ == old(self)@.mirrored(wrap_width as int),
            r == old(self)@.mirror(wrap_width as int).boundary_before(row as int, col as int),
    {
        self.refresh_layout(wrap_width);
        match &self.layout {
            Some(m) => m.map().screen_to_char(row, col),
            None => 0,
        }
    }

    /// The offset a drag that ends on cell `(row, col)` ends at.
    pub fn screen_to_char_end(&mut self, wrap_width: usize, row: usize, col: usize) -> (r: usize)
        ensures
            final(self)@ == old(self)@.mirrored(wrap_width as int),
            r == old(self)@.mirror(wrap_width as int).boundary_after(row as int, col as int),
    {
        self.refresh_layout(wrap_width);
        match &self.layout {
            Some(m) => m.map().screen_to_char_end(row, col),
            None => 0,
        }
    }

    pub fn visual_row_count(&self, wrap_width: usize) -> (r: usize)
        ensures
            r == layout::layout_of(area::lines_of(self@.area.text), wrap_width as int).rows.len(),
    {
        let whole = self.buf();
        let total: usize = whole.as_str().unicode_len();
        let lines = area_lines(&self.textarea);
        proof {
            text::join_pieces(self@.area.text, '\n');
        }
        LayoutMap::new(&lines, wrap_width).row_count()
    }

    /// The cursor's row and column on the screen, counted from the start of
    /// the text.
    pub fn screen_cursor(&self) -> (r: (usize, usize))
        ensures
            r == area::area_screen(self@.area.text, self@.area.cursor, self@.area.layout),
    {
        area_screen_cursor(&self.textarea)
    }

    /// Start and end of the screen row that shows the cursor.
    fn cursor_row_span(&mut self, wrap_width: usize) -> (r: Option<(usize, usize)>)
        ensures
            final(self)@ == old(self)@.mirrored(wrap_width as int),
            match old(self)@.cursor_row(wrap_width as int) {
                Some(i) => {
                    let row = old(self)@.mirror(wrap_width as int).rows[i];
                    r matches Some((s, e)) && s == row.start && e == row.end
                },
                None => r is None,
            },
    {
        let c: usize = self.cursor_char();
        self.refresh_layout(wrap_width);
        match &self.layout {
            Some(m) => {
                let l = m.map();
                match l.row_at(c) {
                    Some(i) => {
                        assert(l@.rows[i as int] == l.rows@[i as int]@);
                        Some((l.rows[i].start_char, l.rows[i].end_char))
                    },
                    None => None,
                }
            },
            None => None,
        }
    }

    /// To the beginning of the screen row.
    pub fn line_start(&mut self, wrap_width: usize)
        ensures
            final(self)@ == old(self)@.to_row_start(wrap_width as int),
    {
        if let Some((start, _)) = self.cursor_row_span(wrap_width) {
            self.set_cursor_char(start);
        }
    }

    /// To the end of the screen row.
    pub fn line_end(&mut self, wrap_width: usize)
        ensures
            final(self)@ == old(self)@.to_row_end(wrap_width as int),
    {
        if let Some((_, end)) = self.cursor_row_span(wrap_width) {
            self.set_cursor_char(end);
        }
    }

    /// The text from the cursor to the end of the screen row removed, the
    /// selection cancelled first.
    pub fn kill_to_end(&mut self, wrap_width: usize)
        ensures
            final(self)@ == old(self)@.killed_to_end(wrap_width as int),
    {
        if let Some((_, end)) = self.cursor_row_span(wrap_width) {
            let total: usize = self.buf().as_str().unicode_len();
            let cur: usize = self.cursor_char();
            if end > cur {
                let last: usize = if end <= total {
                    end
                } else {
                    total
                };
                self.layout = None;
                area_cancel_selection(&mut self.textarea);
                area_delete_str(&mut self.textarea, last - cur);
                self.hist_pos = None;
            }
        }
    }

    /// The text from the start of the screen row to the cursor removed, the
    /// selection cancelled first.
    pub fn kill_to_start(&mut self, wrap_width: usize)
        ensures
            final(self)@ == old(self)@.killed_to_start(wrap_width as int),
    {
        if let Some((start, _)) = self.cursor_row_span(wrap_width) {
            let cur: usize = self.cursor_char();
            if start < cur {
                self.delete_char_range(start, cur);
            }
        }
    }

    /// The scroll mirror moved on as the widget's viewport does.
    pub fn update_scroll_top(&mut self, height: u16)
        ensures
            final(self)@ == (Composer {
                scroll_top: final(self)@.scroll_top,
                ..old(self)@
            }),
            final(self)@.scroll_top == next_scroll_top(
                old(self)@.scroll_top as int % 65536,
                area::area_screen(
                    old(self)@.area.text,
                    old(self)@.area.cursor,
                    old(self)@.area.layout,
                ).0 as int % 65536,
                height as int,
            ),
    {
        let prev: usize = self.scroll_top % 65536;
        let cursor: usize = self.screen_cursor().0 % 65536;
        let height: usize = height as usize;
        self.scroll_top = scroll_to(prev, cursor, height);
    }
}

/// The scroll top that keeps row `cursor` in a viewport of `height` rows.
pub fn scroll_to(prev: usize, cursor: usize, height: usize) -> (r: usize)
    requires
        prev < 65536,
        cursor < 65536,
        height < 65536,
    ensures
        r == next_scroll_top(prev as int, cursor as int, height as int),
{
    if cursor < prev {
        cursor
    } else if prev + height <= cursor {
        cursor + 1 - height
    } else {
        prev
    }
}

/// The offset of line `row`'s start.
fn line_offset(lines: &Vec<String>, row: usize, total: usize) -> (r: usize)
    requires
        row < lines@.len(),
        text::joined(text::views(lines@), seq!['\n']).len() <= total,
    ensures
        r == area::offset(text::views(lines@), row as int, 0),
{
    let ghost text = text::views(lines@);
    let mut at: usize = 0;
    let mut k: usize = 0;
    while k < row
        invariant
            k <= row < lines@.len(),
            text == text::views(lines@),
            text::joined(text, seq!['\n']).len() <= total,
            at == area::offset(text, k as int, 0),
        decreases row - k,
    {
        let n: usize = lines[k].as_str().unicode_len();
        proof {
            reveal_with_fuel(area::offset, 2);
            layout::offset_in_joined(text, k as int, text[k as int].len() as int);
            layout::offset_in_joined(text, k as int + 1, 0);
        }
        at = at + n + 1;
        k += 1;
    }
    at
}

/// The end of the last line is the end of the text.
proof fn end_of_last_line(text: Seq<char>)
    ensures
        ({
            let lines = area::lines_of(text);
            let last = lines.len() - 1;
            &&& lines.len() > 0
            &&& area::line_start(text, 0) == 0
            &&& area::jump(text, last, 0) == area::offset(lines, last, 0)
            &&& area::line_end(text, area::offset(lines, last, 0)) == text.len()
        }),
{
    let lines = area::lines_of(text);
    let last = lines.len() - 1;
    text::join_pieces(text, '\n');
    layout::offset_in_joined(lines, last, 0);
    layout::offset_in_joined(lines, last, lines[last].len() as int);
    last_line_is_tail(lines);
    let start = area::offset(lines, last, 0);
    assert forall|k: int| start <= k < text.len() implies text[k] != '\n' by {
        assert(text.skip(start)[k - start] == text[k]);
        assert(lines[last].contains(text[k]));
    }
    no_newline_ahead(text, start);
}

proof fn no_newline_ahead(text: Seq<char>, at: int)
    requires
        0 <= at <= text.len(),
        forall|k: int| at <= k < text.len() ==> text[k] != '\n',
    ensures
        area::line_end(text, at) == text.len(),
    decreases text.len() - at,
{
    if at < text.len() {
        no_newline_ahead(text, at + 1);
    }
}

/// The last line is what stands behind all others.
proof fn last_line_is_tail(lines: Seq<Seq<char>>)
    requires
        lines.len() > 0,
    ensures
        ({
            let last = lines.len() - 1;
            let text = text::joined(lines, seq!['\n']);
            0 <= area::offset(lines, last, 0) <= text.len() && text.skip(area::offset(lines, last, 0))
                == lines[last]
        }),
    decreases lines.len(),
{
    reveal_with_fuel(area::offset, 2);
    let last = lines.len() - 1;
    let text = text::joined(lines, seq!['\n']);
    layout::offset_in_joined(lines, last, 0);
    if lines.len() > 1 {
        let rest = lines.skip(1);
        last_line_is_tail(rest);
        layout::offset_shift(lines, last, 0);
        let n = lines[0].len() + 1;
        assert(text.skip(area::offset(lines, last, 0)) == text::joined(rest, seq!['\n']).skip(
            area::offset(rest, last - 1, 0),
        ));
    } else {
        assert(text.skip(0) == text);
    }
}

impl Default for ComposerEditor {
    fn default() -> (r: Self)
        ensures
            r@ == (Composer {
                area: Area::fresh(Seq::empty()),
                history: Seq::empty(),
                hist_pos: None,
                stash: Seq::empty(),
                layout: None,
                scroll_top: 0,
            }),
    {
        Self::new()
    }
}

} // verus!
