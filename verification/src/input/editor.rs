//! The single-line form editor: a buffer and a cursor counted in characters,
//! with motions by word and by visual row.

use vstd::prelude::*;
use vstd::string::*;
use crate::input::layout;
use crate::input::layout::char_columns;
use crate::text;
use crate::text::{chars, is_space, string_of};

verus! {

/// Editable prompt state. `cursor` is a character index.
pub struct Input {
    pub buf: String,
    pub cursor: usize,
    pub history: Vec<String>,
    pub hist_pos: Option<usize>,
    pub stash: String,
    pub preferred_visual_col: Option<usize>,
    pub cursor_at_wrap_end: bool,
}

/// What an editor holds.
#[verifier::ext_equal]
pub struct Field {
    pub buf: Seq<char>,
    pub cursor: int,
    pub history: Seq<Seq<char>>,
    pub hist_pos: Option<usize>,
    pub stash: Seq<char>,
    /// The display column that vertical motions keep to.
    pub goal: Option<usize>,
    /// Whether the cursor at a soft wrap shows on the row before it.
    pub at_wrap_end: bool,
}

impl View for Input {
    type V = Field;

    open spec fn view(&self) -> Field {
        Field {
            buf: self.buf@,
            cursor: self.cursor as int,
            history: text::views(self.history@),
            hist_pos: self.hist_pos,
            stash: self.stash@,
            goal: self.preferred_visual_col,
            at_wrap_end: self.cursor_at_wrap_end,
        }
    }
}

/// The start of the run of characters before `i` that are, or are not, white
/// space.
pub open spec fn run_start(s: Seq<char>, i: int, spaces: bool) -> int
    decreases i,
{
    if i > 0 && text::space(s[i - 1]) == spaces {
        run_start(s, i - 1, spaces)
    } else {
        i
    }
}

/// The end of the run of characters from `i` on that are, or are not, white
/// space.
pub open spec fn run_end(s: Seq<char>, i: int, spaces: bool) -> int
    decreases s.len() - i,
{
    if i < s.len() && text::space(s[i]) == spaces {
        run_end(s, i + 1, spaces)
    } else {
        i
    }
}

/// The cells a character takes: at least one.
pub open spec fn cells(c: char) -> int {
    if layout::columns(c) < 1 {
        1
    } else {
        layout::columns(c)
    }
}

pub fn char_cells(c: char) -> (r: usize)
    ensures
        r == cells(c),
{
    let w: usize = match char_columns(c) {
        Some(w) => w,
        None => 0,
    };
    if w < 1 {
        1
    } else {
        w
    }
}

/// The row and column after the first `i` characters, wrapped at `width`.
pub open spec fn pen(s: Seq<char>, i: int, width: int) -> (int, int)
    decreases i,
{
    if i <= 0 {
        (0, 0)
    } else {
        let (row, col) = pen(s, i - 1, width);
        if s[i - 1] == '\n' {
            (row + 1, 0)
        } else if col + cells(s[i - 1]) > width {
            (row + 1, cells(s[i - 1]))
        } else {
            (row, col + cells(s[i - 1]))
        }
    }
}

/// Where the caret before character `i` shows: a character that does not fit
/// takes its caret to the next row, and so does a full last row.
pub open spec fn caret(s: Seq<char>, i: int, width: int) -> (int, int) {
    let (row, col) = pen(s, i, width);
    let wraps = if i < s.len() {
        s[i] != '\n' && col + cells(s[i]) > width
    } else {
        i > 0 && s[i - 1] != '\n' && col >= width
    };
    if wraps {
        (row + 1, 0)
    } else {
        (row, col)
    }
}

/// The end of the row before, for a caret at a soft wrap.
pub open spec fn upstream(s: Seq<char>, i: int, width: int) -> Option<(int, int)> {
    if i > 0 && s[i - 1] != '\n' && caret(s, i, width).0 > caret(s, i - 1, width).0 {
        Some((caret(s, i - 1, width).0, caret(s, i - 1, width).1 + cells(s[i - 1])))
    } else {
        None
    }
}

/// A place a caret can show: the index, its row and column, and whether it is
/// the end of the row before a soft wrap.
pub type Place = (usize, usize, usize, bool);

/// The places of the first `k` carets, in order.
pub open spec fn places(s: Seq<char>, k: int, width: int) -> Seq<(int, int, int, bool)>
    decreases k,
{
    if k <= 0 {
        Seq::empty()
    } else {
        let (row, col) = caret(s, k - 1, width);
        let p = places(s, k - 1, width).push((k - 1, row, col, false));
        match upstream(s, k - 1, width) {
            Some((r, c)) => p.push((k - 1, r, c, true)),
            None => p,
        }
    }
}

pub open spec fn apart(a: int, b: int) -> int {
    if a < b {
        b - a
    } else {
        a - b
    }
}

/// The first of the first `k` places on a row that is nearest to a column.
pub open spec fn nearest(p: Seq<(int, int, int, bool)>, k: int, row: int, col: int) -> Option<int>
    decreases k,
{
    if k <= 0 {
        None
    } else {
        let best = nearest(p, k - 1, row, col);
        if p[k - 1].1 == row && (best is None || apart(p[k - 1].2, col) < apart(
            p[best->0].2,
            col,
        )) {
            Some(k - 1)
        } else {
            best
        }
    }
}

/// The first of the first `k` places on a row with the least column.
pub open spec fn leftmost(p: Seq<(int, int, int, bool)>, k: int, row: int) -> Option<int>
    decreases k,
{
    if k <= 0 {
        None
    } else {
        let best = leftmost(p, k - 1, row);
        if p[k - 1].1 == row && (best is None || p[k - 1].2 < p[best->0].2) {
            Some(k - 1)
        } else {
            best
        }
    }
}

/// The last of the first `k` places on a row with the greatest column.
pub open spec fn rightmost(p: Seq<(int, int, int, bool)>, k: int, row: int) -> Option<int>
    decreases k,
{
    if k <= 0 {
        None
    } else {
        let best = rightmost(p, k - 1, row);
        if p[k - 1].1 == row && (best is None || p[k - 1].2 >= p[best->0].2) {
            Some(k - 1)
        } else {
            best
        }
    }
}

impl Field {
    /// The cursor, within the buffer.
    pub open spec fn at(self) -> int {
        if self.cursor <= self.buf.len() {
            self.cursor
        } else {
            self.buf.len() as int
        }
    }

    /// The same field with the sticky column forgotten.
    pub open spec fn settled(self) -> Field {
        Field { goal: None, at_wrap_end: false, ..self }
    }

    pub open spec fn inserted(self, s: Seq<char>) -> Field {
        Field {
            buf: self.buf.take(self.at()) + s + self.buf.skip(self.at()),
            cursor: self.cursor + s.len(),
            hist_pos: None,
            ..self.settled()
        }
    }

    /// The characters `[from, to)` removed and the cursor put at `cursor`.
    pub open spec fn without(self, from: int, to: int, cursor: int) -> Field {
        Field { buf: self.buf.take(from) + self.buf.skip(to), cursor, ..self.settled() }
    }

    /// The character before the cursor removed; at the start nothing is.
    pub open spec fn backspaced(self) -> Field {
        if self.cursor == 0 {
            self
        } else {
            let from = if self.cursor - 1 <= self.buf.len() {
                self.cursor - 1
            } else {
                self.buf.len() as int
            };
            self.without(from, self.at(), self.cursor - 1)
        }
    }

    pub open spec fn prev_word(self) -> int {
        run_start(self.buf, run_start(self.buf, self.at(), true), false)
    }

    pub open spec fn next_word(self) -> int {
        run_end(self.buf, run_end(self.buf, self.at(), true), false)
    }

    /// Where the caret shows at a width.
    pub open spec fn shown(self, width: int) -> (int, int) {
        match upstream(self.buf, self.at(), width) {
            Some(p) if self.at_wrap_end => p,
            _ => caret(self.buf, self.at(), width),
        }
    }

    pub open spec fn rows(self, width: int) -> int {
        caret(self.buf, self.buf.len() as int, width).0 + 1
    }

    pub open spec fn all_places(self, width: int) -> Seq<(int, int, int, bool)> {
        places(self.buf, self.buf.len() as int + 1, width)
    }

    /// The cursor at one of the places.
    pub open spec fn placed(self, p: Seq<(int, int, int, bool)>, i: Option<int>) -> Field {
        match i {
            Some(i) => Field { cursor: p[i].0, at_wrap_end: p[i].3, ..self },
            None => self,
        }
    }

    /// One visual row up or down, keeping to the column the walk began at.
    pub open spec fn vertical(self, width: int, direction: int) -> Field {
        let (row, col) = self.shown(width);
        let goal = match self.goal {
            Some(g) => g as int,
            None => col,
        };
        let kept = Field { goal: Some(goal as usize), ..self };
        let p = self.all_places(width);
        if direction < 0 && row > 0 {
            kept.placed(p, nearest(p, p.len() as int, row - 1, goal))
        } else if direction > 0 && row + 1 < self.rows(width) {
            kept.placed(p, nearest(p, p.len() as int, row + 1, goal))
        } else {
            kept
        }
    }

    pub open spec fn row_start(self, width: int) -> Field {
        let p = self.all_places(width);
        Field {
            goal: None,
            ..self.placed(p, leftmost(p, p.len() as int, self.shown(width).0))
        }
    }

    pub open spec fn row_end(self, width: int) -> Field {
        let p = self.all_places(width);
        Field {
            goal: None,
            ..self.placed(p, rightmost(p, p.len() as int, self.shown(width).0))
        }
    }
}

/// A width of at least one cell.
pub open spec fn at_least_one(width: int) -> int {
    if width < 1 {
        1
    } else {
        width
    }
}

proof fn pen_bounds(s: Seq<char>, i: int, width: int)
    requires
        0 <= i <= s.len(),
        width >= 1,
    ensures
        0 <= pen(s, i, width).0 <= i,
        0 <= pen(s, i, width).1,
        i > 0 && pen(s, i, width).1 > width ==> pen(s, i, width).1 == cells(s[i - 1]),
    decreases i,
{
    if i > 0 {
        pen_bounds(s, i - 1, width);
    }
}

proof fn run_start_bounds(s: Seq<char>, i: int, spaces: bool)
    requires
        0 <= i <= s.len(),
    ensures
        0 <= run_start(s, i, spaces) <= i,
    decreases i,
{
    if i > 0 && text::space(s[i - 1]) == spaces {
        run_start_bounds(s, i - 1, spaces);
    }
}

fn back_over(v: &Vec<char>, from: usize, spaces: bool) -> (r: usize)
    requires
        from <= v.len(),
    ensures
        r == run_start(v@, from as int, spaces),
        r <= from,
{
    let mut i: usize = from;
    while i > 0 && is_space(v[i - 1]) == spaces
        invariant
            i <= from <= v.len(),
            run_start(v@, from as int, spaces) == run_start(v@, i as int, spaces),
        decreases i,
    {
        i -= 1;
    }
    i
}

fn over(v: &Vec<char>, from: usize, spaces: bool) -> (r: usize)
    requires
        from <= v.len(),
    ensures
        r == run_end(v@, from as int, spaces),
        from <= r <= v.len(),
{
    let mut i: usize = from;
    while i < v.len() && is_space(v[i]) == spaces
        invariant
            from <= i <= v.len(),
            run_end(v@, from as int, spaces) == run_end(v@, i as int, spaces),
        decreases v.len() - i,
    {
        i += 1;
    }
    i
}

fn least(a: usize, b: usize) -> (r: usize)
    ensures
        r == if a <= b { a } else { b },
{
    if a <= b {
        a
    } else {
        b
    }
}

impl Input {
    pub fn new() -> (r: Self)
        ensures
            r@ == (Field {
                buf: Seq::empty(),
                cursor: 0,
                history: Seq::empty(),
                hist_pos: None,
                stash: Seq::empty(),
                goal: None,
                at_wrap_end: false,
            }),
    {
        let history: Vec<String> = Vec::new();
        assert(text::views(history@) == Seq::<Seq<char>>::empty());
        Input {
            buf: String::new(),
            cursor: 0,
            history,
            hist_pos: None,
            stash: String::new(),
            preferred_visual_col: None,
            cursor_at_wrap_end: false,
        }
    }

    /// The number of characters in the buffer.
    pub fn len_chars(&self) -> (r: usize)
        ensures
            r == self@.buf.len(),
    {
        self.buf.as_str().unicode_len()
    }

    pub fn insert(&mut self, ch: char)
        requires
            old(self)@.cursor < usize::MAX,
        ensures
            final(self)@ == old(self)@.inserted(seq![ch]),
    {
        let mut s = String::new();
        s.push(ch);
        assert(s@ == seq![ch]);
        self.insert_str(s.as_str());
    }

    pub fn insert_str(&mut self, s: &str)
        requires
            old(self)@.cursor + s@.len() <= usize::MAX,
        ensures
            final(self)@ == old(self)@.inserted(s@),
    {
        let v = chars(self.buf.as_str());
        let at: usize = least(self.cursor, v.len());
        let mut out = string_of(&v, 0, at);
        out.append(s);
        let rest = string_of(&v, at, v.len());
        out.append(rest.as_str());
        self.buf = out;
        self.cursor = self.cursor + s.unicode_len();
        self.hist_pos = None;
        self.preferred_visual_col = None;
        self.cursor_at_wrap_end = false;
    }

    /// The characters `[from, to)` removed.
    fn remove(&mut self, from: usize, to: usize, cursor: usize)
        requires
            from <= to <= old(self)@.buf.len(),
        ensures
            final(self)@ == old(self)@.without(from as int, to as int, cursor as int),
    {
        let v = chars(self.buf.as_str());
        let mut out = string_of(&v, 0, from);
        let rest = string_of(&v, to, v.len());
        out.append(rest.as_str());
        self.buf = out;
        self.cursor = cursor;
        self.preferred_visual_col = None;
        self.cursor_at_wrap_end = false;
    }

    pub fn backspace(&mut self)
        ensures
            final(self)@ == old(self)@.backspaced(),
    {
        if self.cursor == 0 {
            return;
        }
        let n: usize = self.len_chars();
        let from: usize = least(self.cursor - 1, n);
        let to: usize = least(self.cursor, n);
        self.remove(from, to, self.cursor - 1);
    }

    /// The white space before the cursor and the word before that removed.
    pub fn delete_word_back(&mut self)
        ensures
            final(self)@ == old(self)@.without(
                old(self)@.prev_word(),
                old(self)@.at(),
                old(self)@.prev_word(),
            ),
    {
        let i: usize = self.prev_word();
        let to: usize = least(self.cursor, self.len_chars());
        self.remove(i, to, i);
    }

    pub fn kill_to_end(&mut self)
        ensures
            final(self)@ == (Field {
                buf: old(self)@.buf.take(old(self)@.at()),
                ..old(self)@.settled()
            }),
    {
        let n: usize = self.len_chars();
        let at: usize = least(self.cursor, n);
        self.remove(at, n, self.cursor);
        assert(old(self)@.buf.take(at as int) + old(self)@.buf.skip(n as int) == old(
            self,
        )@.buf.take(at as int));
    }

    pub fn kill_to_start(&mut self)
        ensures
            final(self)@ == (Field {
                buf: old(self)@.buf.skip(old(self)@.at()),
                cursor: 0,
                ..old(self)@.settled()
            }),
    {
        let at: usize = least(self.cursor, self.len_chars());
        self.remove(0, at, 0);
        assert(old(self)@.buf.take(0) + old(self)@.buf.skip(at as int) == old(self)@.buf.skip(
            at as int,
        ));
    }

    pub fn delete_forward(&mut self)
        ensures
            final(self)@ == if old(self)@.cursor >= old(self)@.buf.len() {
                old(self)@
            } else {
                old(self)@.without(
                    old(self)@.cursor,
                    old(self)@.cursor + 1,
                    old(self)@.cursor,
                )
            },
    {
        if self.cursor >= self.len_chars() {
            return;
        }
        self.remove(self.cursor, self.cursor + 1, self.cursor);
    }

    /// The cursor position one word left.
    pub fn prev_word(&self) -> (r: usize)
        ensures
            r == self@.prev_word(),
            r <= self@.at(),
    {
        let v = chars(self.buf.as_str());
        let at: usize = least(self.cursor, v.len());
        let i: usize = back_over(&v, at, true);
        back_over(&v, i, false)
    }

    /// The cursor position one word right.
    pub fn next_word(&self) -> (r: usize)
        ensures
            r == self@.next_word(),
            self@.at() <= r <= self@.buf.len(),
    {
        let v = chars(self.buf.as_str());
        let at: usize = least(self.cursor, v.len());
        let i: usize = over(&v, at, true);
        over(&v, i, false)
    }

    pub fn clear(&mut self)
        ensures
            final(self)@ == (Field {
                buf: Seq::empty(),
                cursor: 0,
                hist_pos: None,
                ..old(self)@.settled()
            }),
    {
        self.buf = String::new();
        self.cursor = 0;
        self.hist_pos = None;
        self.preferred_visual_col = None;
        self.cursor_at_wrap_end = false;
    }

    pub fn set(&mut self, s: String)
        ensures
            final(self)@ == (Field {
                buf: s@,
                cursor: s@.len() as int,
                ..old(self)@.settled()
            }),
    {
        self.cursor = s.as_str().unicode_len();
        self.buf = s;
        self.preferred_visual_col = None;
        self.cursor_at_wrap_end = false;
    }

    pub fn is_empty(&self) -> (r: bool)
        ensures
            r == (self@.buf.len() == 0),
    {
        self.buf.as_str().is_empty()
    }

    /// Forgets the sticky column of vertical motions.
    pub fn reset_vertical_goal(&mut self)
        ensures
            final(self)@ == old(self)@.settled(),
    {
        self.preferred_visual_col = None;
        self.cursor_at_wrap_end = false;
    }

    /// The number of visual rows at a width.
    pub fn visual_row_count(&self, width: usize) -> (r: usize)
        requires
            self@.buf.len() + 2 <= usize::MAX,
        ensures
            r == self@.rows(at_least_one(width as int)),
    {
        let (_, _, rows) = self.visual_layout(
            if width < 1 {
                1
            } else {
                width
            },
        );
        rows
    }

    /// One visual row up or down.
    pub fn move_vertical(&mut self, width: usize, direction: i8)
        requires
            old(self)@.buf.len() + 2 <= usize::MAX,
        ensures
            final(self)@ == old(self)@.vertical(at_least_one(width as int), direction as int),
    {
        let width: usize = if width < 1 {
            1
        } else {
            width
        };
        let (candidates, rows) = self.visual_candidates(width);
        let (row, col) = self.visual_cursor(width);
        let goal: usize = match self.preferred_visual_col {
            Some(g) => g,
            None => col,
        };
        self.preferred_visual_col = Some(goal);
        let target: usize = if direction < 0 {
            if row == 0 {
                return;
            }
            row - 1
        } else if direction > 0 && row + 1 < rows {
            row + 1
        } else {
            return;
        };
        let best = nearest_place(&candidates, target, goal);
        if let Some(b) = best {
            self.cursor = candidates[b].0;
            self.cursor_at_wrap_end = candidates[b].3;
        }
    }

    /// To the beginning of the visual row.
    pub fn move_to_visual_line_start(&mut self, width: usize)
        requires
            old(self)@.buf.len() + 2 <= usize::MAX,
        ensures
            final(self)@ == old(self)@.row_start(at_least_one(width as int)),
    {
        let width: usize = if width < 1 {
            1
        } else {
            width
        };
        let (row, _) = self.visual_cursor(width);
        let (candidates, _) = self.visual_candidates(width);
        let best = leftmost_place(&candidates, row);
        if let Some(b) = best {
            self.cursor = candidates[b].0;
            self.cursor_at_wrap_end = candidates[b].3;
        }
        self.preferred_visual_col = None;
    }

    /// To the end of the visual row: at a soft wrap the cursor stays on it.
    pub fn move_to_visual_line_end(&mut self, width: usize)
        requires
            old(self)@.buf.len() + 2 <= usize::MAX,
        ensures
            final(self)@ == old(self)@.row_end(at_least_one(width as int)),
    {
        let width: usize = if width < 1 {
            1
        } else {
            width
        };
        let (row, _) = self.visual_cursor(width);
        let (candidates, _) = self.visual_candidates(width);
        let best = rightmost_place(&candidates, row);
        if let Some(b) = best {
            self.cursor = candidates[b].0;
            self.cursor_at_wrap_end = candidates[b].3;
        }
        self.preferred_visual_col = None;
    }

    /// Where the caret shows.
    pub fn visual_cursor(&self, width: usize) -> (r: (usize, usize))
        requires
            self@.buf.len() + 2 <= usize::MAX,
        ensures
            (r.0 as int, r.1 as int) == self@.shown(at_least_one(width as int)),
            r.0 <= self@.buf.len() + 1,
    {
        let width: usize = if width < 1 {
            1
        } else {
            width
        };
        let (v, carets, _) = self.visual_layout(width);
        let index: usize = least(self.cursor, v.len());
        proof {
            pen_bounds(v@, index as int, width as int);
            if index > 0 {
                pen_bounds(v@, index as int - 1, width as int);
            }
        }
        if self.cursor_at_wrap_end {
            if let Some(position) = Self::wrap_end_position(index, &v, &carets, width) {
                return position;
            }
        }
        carets[index]
    }

    /// Every place a caret can show: a soft wrap gives its index two.
    fn visual_candidates(&self, width: usize) -> (r: (Vec<Place>, usize))
        requires
            self@.buf.len() + 2 <= usize::MAX,
            width >= 1,
        ensures
            as_places(r.0@) == self@.all_places(width as int),
            r.1 == self@.rows(width as int),
    {
        let (v, carets, rows) = self.visual_layout(width);
        let mut out: Vec<Place> = Vec::new();
        let mut i: usize = 0;
        while i < carets.len()
            invariant
                i <= carets.len(),
                width >= 1,
                v@ == self@.buf,
                laid_out(v@, carets@, width as int),
                as_places(out@) == places(v@, i as int, width as int),
            decreases carets.len() - i,
        {
            let (row, col) = carets[i];
            let ghost before = as_places(out@);
            out.push((i, row, col, false));
            assert(as_places(out@) == before.push((i as int, row as int, col as int, false)));
            if let Some((r, c)) = Self::wrap_end_position(i, &v, &carets, width) {
                let ghost shown = as_places(out@);
                out.push((i, r, c, true));
                assert(as_places(out@) == shown.push((i as int, r as int, c as int, true)));
            }
            i += 1;
        }
        (out, rows)
    }

    fn wrap_end_position(
        index: usize,
        v: &Vec<char>,
        carets: &Vec<(usize, usize)>,
        width: usize,
    ) -> (r: Option<(usize, usize)>)
        requires
            index <= v.len(),
            width >= 1,
            laid_out(v@, carets@, width as int),
        ensures
            match r {
                Some(p) => upstream(v@, index as int, width as int) == Some(
                    (p.0 as int, p.1 as int),
                ),
                None => upstream(v@, index as int, width as int) is None,
            },
    {
        if index == 0 {
            return None;
        }
        let previous = v[index - 1];
        if previous == '\n' {
            return None;
        }
        let (row, col) = carets[index - 1];
        proof {
            pen_bounds(v@, index as int, width as int);
            pen_bounds(v@, index as int - 1, width as int);
        }
        let end: usize = col + char_cells(previous);
        if carets[index].0 > row {
            Some((row, end))
        } else {
            None
        }
    }

    /// The characters, where the caret before each of them and at the end
    /// shows, and the number of rows.
    fn visual_layout(&self, width: usize) -> (r: (Vec<char>, Vec<(usize, usize)>, usize))
        requires
            self@.buf.len() + 2 <= usize::MAX,
            width >= 1,
        ensures
            r.0@ == self@.buf,
            laid_out(r.0@, r.1@, width as int),
            r.2 == self@.rows(width as int),
    {
        let v = chars(self.buf.as_str());
        let mut carets: Vec<(usize, usize)> = Vec::new();
        let mut row: usize = 0;
        let mut col: usize = 0;
        let mut i: usize = 0;
        while i < v.len()
            invariant
                i <= v.len(),
                width >= 1,
                v@ == self@.buf,
                v@.len() + 2 <= usize::MAX,
                (row as int, col as int) == pen(v@, i as int, width as int),
                carets.len() == i,
                forall|k: int|
                    0 <= k < i ==> ((#[trigger] carets@[k]).0 as int, carets@[k].1 as int) == caret(
                        v@,
                        k,
                        width as int,
                    ),
            decreases v.len() - i,
        {
            proof {
                pen_bounds(v@, i as int, width as int);
            }
            if v[i] == '\n' {
                carets.push((row, col));
                row += 1;
                col = 0;
            } else {
                let w: usize = char_cells(v[i]);
                if col > width || w > width - col {
                    row += 1;
                    col = 0;
                }
                carets.push((row, col));
                col = col + w;
            }
            i += 1;
        }
        proof {
            pen_bounds(v@, v@.len() as int, width as int);
        }
        if v.len() > 0 && v[v.len() - 1] != '\n' && col >= width {
            row += 1;
            col = 0;
        }
        carets.push((row, col));
        (v, carets, row + 1)
    }
}

/// `carets` holds where every caret of `s` shows.
pub open spec fn laid_out(s: Seq<char>, carets: Seq<(usize, usize)>, width: int) -> bool {
    &&& carets.len() == s.len() + 1
    &&& forall|k: int|
        0 <= k < carets.len() ==> ((#[trigger] carets[k]).0 as int, carets[k].1 as int) == caret(
            s,
            k,
            width,
        )
}

/// The places as the mathematical model has them.
pub open spec fn as_places(v: Seq<Place>) -> Seq<(int, int, int, bool)> {
    v.map_values(|c: Place| (c.0 as int, c.1 as int, c.2 as int, c.3))
}

pub open spec fn index_of(i: Option<usize>) -> Option<int> {
    match i {
        Some(b) => Some(b as int),
        None => None,
    }
}

fn nearest_place(v: &Vec<Place>, row: usize, col: usize) -> (best: Option<usize>)
    ensures
        index_of(best) == nearest(as_places(v@), v@.len() as int, row as int, col as int),
        best matches Some(b) ==> b < v.len(),
{
    let ghost p = as_places(v@);
    let mut best: Option<usize> = None;
    let mut k: usize = 0;
    while k < v.len()
        invariant
            k <= v.len(),
            p == as_places(v@),
            best is Some ==> best->0 < k,
            nearest(p, k as int, row as int, col as int) == index_of(best),
        decreases v.len() - k,
    {
        let c = v[k];
        if c.1 == row {
            let d: usize = distance(c.2, col);
            let closer = match best {
                Some(b) => d < distance(v[b].2, col),
                None => true,
            };
            if closer {
                best = Some(k);
            }
        }
        k += 1;
    }
    best
}

fn leftmost_place(v: &Vec<Place>, row: usize) -> (best: Option<usize>)
    ensures
        index_of(best) == leftmost(as_places(v@), v@.len() as int, row as int),
        best matches Some(b) ==> b < v.len(),
{
    let ghost p = as_places(v@);
    let mut best: Option<usize> = None;
    let mut k: usize = 0;
    while k < v.len()
        invariant
            k <= v.len(),
            p == as_places(v@),
            best is Some ==> best->0 < k,
            leftmost(p, k as int, row as int) == index_of(best),
        decreases v.len() - k,
    {
        let c = v[k];
        let better = match best {
            Some(b) => c.2 < v[b].2,
            None => true,
        };
        if c.1 == row && better {
            best = Some(k);
        }
        k += 1;
    }
    best
}

fn rightmost_place(v: &Vec<Place>, row: usize) -> (best: Option<usize>)
    ensures
        index_of(best) == rightmost(as_places(v@), v@.len() as int, row as int),
        best matches Some(b) ==> b < v.len(),
{
    let ghost p = as_places(v@);
    let mut best: Option<usize> = None;
    let mut k: usize = 0;
    while k < v.len()
        invariant
            k <= v.len(),
            p == as_places(v@),
            best is Some ==> best->0 < k,
            rightmost(p, k as int, row as int) == index_of(best),
        decreases v.len() - k,
    {
        let c = v[k];
        let better = match best {
            Some(b) => c.2 >= v[b].2,
            None => true,
        };
        if c.1 == row && better {
            best = Some(k);
        }
        k += 1;
    }
    best
}

fn distance(a: usize, b: usize) -> (r: usize)
    ensures
        r == apart(a as int, b as int),
{
    if a < b {
        b - a
    } else {
        a - b
    }
}

/// Backspace takes a typed character back: the buffer, the cursor, the history
/// and the stash are as they were.
pub proof fn backspace_undoes_insert(f: Field, ch: char)
    requires
        0 <= f.cursor <= f.buf.len(),
    ensures
        ({
            let b = f.inserted(seq![ch]).backspaced();
            &&& b.buf == f.buf
            &&& b.cursor == f.cursor
            &&& b.history == f.history
            &&& b.stash == f.stash
        }),
        f.cursor == 0 ==> f.backspaced() == f,
{
    let typed = f.inserted(seq![ch]);
    assert(typed.buf.take(f.cursor) == f.buf.take(f.cursor));
    assert(typed.buf.skip(f.cursor + 1) == f.buf.skip(f.cursor));
    assert(f.buf.take(f.cursor) + f.buf.skip(f.cursor) == f.buf);
}

// --- visual rows ------------------------------------------------------------

/// Whether every character fits a row of its own.
pub open spec fn fits(s: Seq<char>, width: int) -> bool {
    forall|i: int| 0 <= i < s.len() && s[i] != '\n' ==> cells(#[trigger] s[i]) <= width
}

proof fn pen_fits(s: Seq<char>, i: int, width: int)
    requires
        0 <= i <= s.len(),
        width >= 1,
        fits(s, width),
    ensures
        0 <= pen(s, i, width).0,
        0 <= pen(s, i, width).1 <= width,
    decreases i,
{
    if i > 0 {
        pen_fits(s, i - 1, width);
        assert(s[i - 1] != '\n' ==> cells(s[i - 1]) <= width);
    }
}

/// One caret further: on the same row further right, or on the next row.
proof fn caret_steps(s: Seq<char>, i: int, width: int)
    requires
        0 <= i < s.len(),
        width >= 1,
        fits(s, width),
    ensures
        ({
            let a = caret(s, i, width);
            let b = caret(s, i + 1, width);
            b.0 == a.0 + 1 || (b.0 == a.0 && b.1 > a.1)
        }),
        s[i] != '\n' && caret(s, i + 1, width).0 == caret(s, i, width).0 ==> caret(
            s,
            i + 1,
            width,
        ).1 == caret(s, i, width).1 + cells(s[i]),
{
    pen_fits(s, i, width);
    pen_fits(s, i + 1, width);
    if i + 1 < s.len() {
        assert(s[i + 1] != '\n' ==> cells(s[i + 1]) <= width);
    }
    assert(s[i] != '\n' ==> cells(s[i]) <= width);
}

proof fn caret_begins(s: Seq<char>, width: int)
    requires
        width >= 1,
        fits(s, width),
    ensures
        caret(s, 0, width) == (0int, 0int),
{
    if s.len() > 0 {
        assert(s[0] != '\n' ==> cells(s[0]) <= width);
    }
}

/// Carets go on in reading order.
proof fn carets_ascend(s: Seq<char>, i: int, j: int, width: int)
    requires
        0 <= i < j <= s.len(),
        width >= 1,
        fits(s, width),
    ensures
        ({
            let a = caret(s, i, width);
            let b = caret(s, j, width);
            b.0 > a.0 || (b.0 == a.0 && b.1 > a.1)
        }),
    decreases j - i,
{
    caret_steps(s, i, width);
    if i + 1 < j {
        carets_ascend(s, i + 1, j, width);
    }
}

/// Every row up to a caret's shows a caret.
proof fn row_is_shown(s: Seq<char>, i: int, row: int, width: int)
    requires
        0 <= i <= s.len(),
        width >= 1,
        fits(s, width),
        0 <= row <= caret(s, i, width).0,
    ensures
        exists|k: int| 0 <= k <= i && (#[trigger] caret(s, k, width)).0 == row,
    decreases i,
{
    if i == 0 {
        caret_begins(s, width);
        assert(caret(s, 0, width).0 == row);
    } else if caret(s, i, width).0 != row {
        caret_steps(s, i - 1, width);
        row_is_shown(s, i - 1, row, width);
    } else {
        assert(caret(s, i, width).0 == row);
    }
}

/// What a place says is where its caret shows.
pub open spec fn true_place(s: Seq<char>, x: (int, int, int, bool), width: int) -> bool {
    &&& 0 <= x.0 <= s.len()
    &&& x.3 ==> upstream(s, x.0, width) == Some((x.1, x.2))
    &&& !x.3 ==> caret(s, x.0, width) == (x.1, x.2)
}

proof fn places_are_true(s: Seq<char>, k: int, width: int)
    requires
        0 <= k <= s.len() + 1,
    ensures
        forall|a: int|
            0 <= a < places(s, k, width).len() ==> true_place(
                s,
                #[trigger] places(s, k, width)[a],
                width,
            ),
    decreases k,
{
    if k > 0 {
        places_are_true(s, k - 1, width);
        let before = places(s, k - 1, width);
        let all = places(s, k, width);
        assert forall|a: int| 0 <= a < all.len() implies true_place(
            s,
            #[trigger] all[a],
            width,
        ) by {
            if a < before.len() {
                assert(all[a] == before[a]);
            }
        }
    }
}

/// Every caret has its place.
proof fn caret_has_a_place(s: Seq<char>, k: int, i: int, width: int)
    requires
        0 <= i < k <= s.len() + 1,
    ensures
        exists|a: int|
            0 <= a < places(s, k, width).len() && #[trigger] places(s, k, width)[a] == (
                i,
                caret(s, i, width).0,
                caret(s, i, width).1,
                false,
            ),
    decreases k,
{
    let before = places(s, k - 1, width);
    let all = places(s, k, width);
    let here = (i, caret(s, i, width).0, caret(s, i, width).1, false);
    if i == k - 1 {
        assert(all[before.len() as int] == here);
    } else {
        caret_has_a_place(s, k - 1, i, width);
        let a = choose|a: int| 0 <= a < before.len() && #[trigger] before[a] == here;
        assert(all[a] == here);
    }
}

/// No two places are on the same cell.
proof fn place_is_alone(
    s: Seq<char>,
    x: (int, int, int, bool),
    y: (int, int, int, bool),
    width: int,
)
    requires
        width >= 1,
        fits(s, width),
        true_place(s, x, width),
        true_place(s, y, width),
        x.1 == y.1,
        x.2 == y.2,
    ensures
        x == y,
{
    if x.3 {
        caret_steps(s, x.0 - 1, width);
    }
    if y.3 {
        caret_steps(s, y.0 - 1, width);
    }
    let i = if x.3 {
        x.0 - 1
    } else {
        x.0
    };
    let j = if y.3 {
        y.0 - 1
    } else {
        y.0
    };
    if i < j {
        carets_ascend(s, i, j, width);
        if x.3 && x.0 < j {
            carets_ascend(s, x.0, j, width);
        }
    } else if j < i {
        carets_ascend(s, j, i, width);
        if y.3 && y.0 < i {
            carets_ascend(s, y.0, i, width);
        }
    }
}

proof fn nearest_is_nearest(p: Seq<(int, int, int, bool)>, k: int, row: int, col: int)
    requires
        0 <= k <= p.len(),
    ensures
        match nearest(p, k, row, col) {
            Some(b) => 0 <= b < k && p[b].1 == row && forall|a: int|
                0 <= a < k && (#[trigger] p[a]).1 == row ==> apart(p[b].2, col) <= apart(
                    p[a].2,
                    col,
                ),
            None => forall|a: int| 0 <= a < k ==> (#[trigger] p[a]).1 != row,
        },
    decreases k,
{
    if k > 0 {
        nearest_is_nearest(p, k - 1, row, col);
    }
}

/// Going to the place that is nearest to a column on a row that is shown goes
/// to that row, and nowhere nearer is to be had.
proof fn nearest_is_shown(f: Field, row: int, col: int, width: int)
    requires
        width >= 1,
        fits(f.buf, width),
        0 <= row < f.rows(width),
    ensures
        ({
            let p = f.all_places(width);
            let n = nearest(p, p.len() as int, row, col);
            let to = f.placed(p, n);
            &&& n is Some
            &&& 0 <= to.cursor <= f.buf.len()
            &&& to.shown(width).0 == row
            &&& to.shown(width) == (p[n->0].1, p[n->0].2)
            &&& true_place(f.buf, p[n->0], width)
            &&& forall|a: int|
                0 <= a < p.len() && (#[trigger] p[a]).1 == row ==> apart(to.shown(width).1, col)
                    <= apart(p[a].2, col)
        }),
{
    let s = f.buf;
    let len = s.len() as int;
    let p = f.all_places(width);
    row_is_shown(s, len, row, width);
    let i = choose|i: int| 0 <= i <= len && (#[trigger] caret(s, i, width)).0 == row;
    caret_has_a_place(s, len + 1, i, width);
    places_are_true(s, len + 1, width);
    nearest_is_nearest(p, p.len() as int, row, col);
    let here = (i, caret(s, i, width).0, caret(s, i, width).1, false);
    let a = choose|a: int| 0 <= a < p.len() && #[trigger] p[a] == here;
    assert(p[a].1 == row);
}

/// A step to a neighbouring row and the opposite step return to the same place.
proof fn step_and_back(f: Field, width: int, down: bool)
    requires
        1 <= width <= usize::MAX,
        0 <= f.cursor <= f.buf.len(),
        f.goal is None,
        !f.at_wrap_end,
        fits(f.buf, width),
        if down {
            f.shown(width).0 + 1 < f.rows(width)
        } else {
            f.shown(width).0 > 0
        },
    ensures
        ({
            let (row, col) = f.shown(width);
            let way: int = if down {
                1
            } else {
                -1
            };
            let p = f.all_places(width);
            let to = f.vertical(width, way);
            let back = to.vertical(width, -way);
            &&& to.shown(width).0 == row + way
            &&& forall|a: int|
                0 <= a < p.len() && (#[trigger] p[a]).1 == row + way ==> apart(
                    to.shown(width).1,
                    col,
                ) <= apart(p[a].2, col)
            &&& back.cursor == f.cursor
            &&& back.shown(width) == (row, col)
        }),
{
    let s = f.buf;
    let len = s.len() as int;
    let (row, col) = f.shown(width);
    let way: int = if down {
        1
    } else {
        -1
    };
    let p = f.all_places(width);
    pen_fits(s, f.cursor, width);
    if f.cursor < len {
        carets_ascend(s, f.cursor, len, width);
    }
    let kept = Field { goal: Some(col as usize), ..f };
    nearest_is_shown(kept, row + way, col, width);
    let to = f.vertical(width, way);
    assert(to.goal == Some(col as usize));
    nearest_is_shown(to, row, col, width);
    let n = nearest(p, p.len() as int, row, col)->0;
    caret_has_a_place(s, len + 1, f.cursor, width);
    places_are_true(s, len + 1, width);
    let here = (f.cursor, row, col, false);
    let a = choose|a: int| 0 <= a < p.len() && #[trigger] p[a] == here;
    assert(apart(p[a].2, col) == 0);
    place_is_alone(s, p[n], p[a], width);
}

/// With the column to keep to just settled, a step up goes to the row above,
/// to the caret nearest to the column, and a step down from there returns to
/// the same place; so do a step down and a step up. At the first row a step up
/// leaves the cursor alone, at the last a step down. The text never changes.
pub proof fn vertical_steps_return(f: Field, width: int)
    requires
        1 <= width <= usize::MAX,
        0 <= f.cursor <= f.buf.len(),
        f == f.settled(),
        fits(f.buf, width),
    ensures
        ({
            let (row, col) = f.shown(width);
            let p = f.all_places(width);
            let up = f.vertical(width, -1);
            let down = f.vertical(width, 1);
            &&& up.buf == f.buf
            &&& down.buf == f.buf
            &&& row == 0 ==> up.cursor == f.cursor
            &&& row + 1 >= f.rows(width) ==> down.cursor == f.cursor
            &&& row > 0 ==> {
                &&& up.shown(width).0 == row - 1
                &&& forall|a: int|
                    0 <= a < p.len() && (#[trigger] p[a]).1 == row - 1 ==> apart(
                        up.shown(width).1,
                        col,
                    ) <= apart(p[a].2, col)
                &&& up.vertical(width, 1).cursor == f.cursor
                &&& up.vertical(width, 1).shown(width) == (row, col)
            }
            &&& row + 1 < f.rows(width) ==> {
                &&& down.shown(width).0 == row + 1
                &&& forall|a: int|
                    0 <= a < p.len() && (#[trigger] p[a]).1 == row + 1 ==> apart(
                        down.shown(width).1,
                        col,
                    ) <= apart(p[a].2, col)
                &&& down.vertical(width, -1).cursor == f.cursor
                &&& down.vertical(width, -1).shown(width) == (row, col)
            }
        }),
{
    let row = f.shown(width).0;
    if row > 0 {
        step_and_back(f, width, false);
    }
    if row + 1 < f.rows(width) {
        step_and_back(f, width, true);
    }
}

/// Going to the start of the row stays in the row, and going there again moves
/// nothing.
pub proof fn row_start_is_reached_once(f: Field, width: int)
    requires
        width >= 1,
        0 <= f.cursor <= f.buf.len(),
        fits(f.buf, width),
    ensures
        f.row_start(width).shown(width).0 == f.shown(width).0,
        f.row_start(width).row_start(width) == f.row_start(width),
{
    let s = f.buf;
    let len = s.len() as int;
    let p = f.all_places(width);
    let row = f.shown(width).0;
    places_are_true(s, len + 1, width);
    let at = match upstream(s, f.cursor, width) {
        Some(_) if f.at_wrap_end => f.cursor - 1,
        _ => f.cursor,
    };
    caret_has_a_place(s, len + 1, at, width);
    let here = (at, caret(s, at, width).0, caret(s, at, width).1, false);
    let a = choose|a: int| 0 <= a < p.len() && #[trigger] p[a] == here;
    assert(p[a].1 == row);
    leftmost_is_on_the_row(p, p.len() as int, row);
}

proof fn leftmost_is_on_the_row(p: Seq<(int, int, int, bool)>, k: int, row: int)
    requires
        0 <= k <= p.len(),
    ensures
        match leftmost(p, k, row) {
            Some(b) => 0 <= b < k && p[b].1 == row,
            None => forall|a: int| 0 <= a < k ==> (#[trigger] p[a]).1 != row,
        },
    decreases k,
{
    if k > 0 {
        leftmost_is_on_the_row(p, k - 1, row);
    }
}

} // verus!
