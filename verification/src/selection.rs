//! The chat pane as the last frame showed it, and what the mouse selects in
//! it.

use vstd::prelude::*;
use vstd::string::*;
use crate::input::editor;
use crate::input::editor::char_cells;
use crate::input::layout;
use crate::text;
use crate::text::{chars, end_trimmed, is_space, join, string_of};

verus! {

/// A rectangle of the screen.
#[derive(Debug, Clone, Copy, PartialEq, Eq, Structural)]
pub struct Rect {
    pub x: u16,
    pub y: u16,
    pub width: u16,
    pub height: u16,
}

/// A sum of two coordinates, which stays on the screen.
pub open spec fn edge(a: u16, b: u16) -> int {
    if a + b <= u16::MAX {
        a + b
    } else {
        u16::MAX as int
    }
}

impl Rect {
    pub open spec fn nowhere() -> Rect {
        Rect { x: 0, y: 0, width: 0, height: 0 }
    }

    /// Whether a cell lies in the rectangle.
    pub open spec fn covers(self, col: u16, row: u16) -> bool {
        self.x <= col < edge(self.x, self.width) && self.y <= row < edge(self.y, self.height)
    }

    pub fn none() -> (r: Self)
        ensures
            r == Rect::nowhere(),
    {
        Rect { x: 0, y: 0, width: 0, height: 0 }
    }

    pub fn contains(&self, col: u16, row: u16) -> (r: bool)
        ensures
            r == self.covers(col, row),
    {
        col >= self.x && col < self.x.saturating_add(self.width) && row >= self.y && row
            < self.y.saturating_add(self.height)
    }
}

/// Whether a cell lies in a rectangle, where there is one.
pub open spec fn over(r: Option<Rect>, col: u16, row: u16) -> bool {
    r is Some && r->0.covers(col, row)
}

pub fn is_over(r: &Option<Rect>, col: u16, row: u16) -> (hit: bool)
    ensures
        hit == over(*r, col, row),
{
    match r {
        Some(r) => r.contains(col, row),
        None => false,
    }
}

/// One end of a selection: a line of the layout and a cell column in it.
#[derive(Debug, Clone, Copy, PartialEq, Eq, Structural)]
pub struct SelPoint {
    pub line: usize,
    pub col: usize,
}

/// A selection in the chat pane. The head follows the pointer, and may come
/// before the anchor.
#[derive(Debug, Clone, Copy, PartialEq, Eq, Structural)]
pub struct Selection {
    pub anchor: SelPoint,
    pub head: SelPoint,
}

/// Whether point `a` comes before point `b`.
pub open spec fn earlier(a: SelPoint, b: SelPoint) -> bool {
    a.line < b.line || (a.line == b.line && a.col < b.col)
}

impl Selection {
    /// Start and end in reading order.
    pub open spec fn ends(self) -> (SelPoint, SelPoint) {
        if earlier(self.head, self.anchor) {
            (self.head, self.anchor)
        } else {
            (self.anchor, self.head)
        }
    }

    /// Start and end in reading order; the end is part of the selection.
    pub fn ordered(&self) -> (r: (SelPoint, SelPoint))
        ensures
            r == self.ends(),
    {
        if self.head.line < self.anchor.line || (self.head.line == self.anchor.line && self.head.col
            < self.anchor.col) {
            (self.head, self.anchor)
        } else {
            (self.anchor, self.head)
        }
    }

    /// A plain click, which selects nothing.
    pub fn is_caret(&self) -> (r: bool)
        ensures
            r == (self.anchor == self.head),
    {
        self.anchor == self.head
    }
}

/// A selection has the same ends whichever way it was dragged, and they are
/// in order.
pub proof fn ends_do_not_depend_on_direction(a: SelPoint, b: SelPoint)
    ensures
        (Selection { anchor: a, head: b }).ends() == (Selection { anchor: b, head: a }).ends(),
        !earlier(
            (Selection { anchor: a, head: b }).ends().1,
            (Selection { anchor: a, head: b }).ends().0,
        ),
{
}

/// A drag in the composer's well: the cells where it began and where the
/// pointer is, as row and column.
#[derive(Debug, Clone, Copy, PartialEq, Eq)]
pub struct InputSel {
    pub anchor: (usize, usize),
    pub head: (usize, usize),
}

impl InputSel {
    /// Start and end in reading order.
    pub open spec fn ends(self) -> ((usize, usize), (usize, usize)) {
        if self.anchor.0 < self.head.0 || (self.anchor.0 == self.head.0 && self.anchor.1
            <= self.head.1) {
            (self.anchor, self.head)
        } else {
            (self.head, self.anchor)
        }
    }

    /// A plain click, which selects nothing.
    pub fn is_caret(&self) -> (r: bool)
        ensures
            r == (self.anchor == self.head),
    {
        self.anchor.0 == self.head.0 && self.anchor.1 == self.head.1
    }

    pub fn ordered(&self) -> (r: ((usize, usize), (usize, usize)))
        ensures
            r == self.ends(),
    {
        if self.anchor.0 < self.head.0 || (self.anchor.0 == self.head.0 && self.anchor.1
            <= self.head.1) {
            (self.anchor, self.head)
        } else {
            (self.head, self.anchor)
        }
    }
}

// --- text by cells ----------------------------------------------------------

/// The cells of the characters `a..b`.
pub open spec fn cells_of(s: Seq<char>, a: int, b: int) -> int
    decreases b - a,
{
    if a >= b {
        0
    } else {
        layout::cap(cells_of(s, a, b - 1) + editor::cells(s[b - 1]))
    }
}

/// Whether the character at `i` is among those that cells `c0..c1` show, a
/// wide one already where they show a part of it.
pub open spec fn shown(s: Seq<char>, i: int, c0: int, c1: int) -> bool {
    cells_of(s, 0, i + 1) > c0 && cells_of(s, 0, i) < c1
}

/// The characters of the first `n` that cells `c0..c1` show.
pub open spec fn sliced(s: Seq<char>, c0: int, c1: int, n: int) -> Seq<char>
    decreases n,
{
    if n <= 0 {
        Seq::empty()
    } else if shown(s, n - 1, c0, c1) {
        sliced(s, c0, c1, n - 1).push(s[n - 1])
    } else {
        sliced(s, c0, c1, n - 1)
    }
}

proof fn nothing_more_shown(s: Seq<char>, c0: int, c1: int, i: int, n: int)
    requires
        0 <= i <= n <= s.len(),
        cells_of(s, 0, i) >= c1,
        c1 <= usize::MAX,
    ensures
        sliced(s, c0, c1, n) == sliced(s, c0, c1, i),
        cells_of(s, 0, n) >= c1,
    decreases n,
{
    if i < n {
        nothing_more_shown(s, c0, c1, i, n - 1);
    }
}

/// The part of a line that cells `c0..c1` show.
pub fn slice_by_cells(s: &str, c0: usize, c1: usize) -> (r: String)
    ensures
        r@ == sliced(s@, c0 as int, c1 as int, s@.len() as int),
{
    let v = chars(s);
    let mut out = String::new();
    let mut w: usize = 0;
    let mut i: usize = 0;
    while i < v.len()
        invariant
            i <= v.len(),
            v@ == s@,
            w == cells_of(s@, 0, i as int),
            out@ == sliced(s@, c0 as int, c1 as int, i as int),
        decreases v.len() - i,
    {
        let next: usize = w.saturating_add(char_cells(v[i]));
        assert(next == cells_of(s@, 0, i + 1));
        if next > c0 && w < c1 {
            out.push(v[i]);
        }
        w = next;
        i += 1;
        if w >= c1 {
            proof {
                nothing_more_shown(s@, c0 as int, c1 as int, i as int, s@.len() as int);
            }
            return out;
        }
    }
    out
}

/// The first character from `i` on that column `col` falls on or before, or
/// the length of the line.
pub open spec fn char_at(s: Seq<char>, col: int, i: int) -> int
    decreases s.len() - i,
{
    if 0 <= i < s.len() && col >= cells_of(s, 0, i + 1) {
        char_at(s, col, i + 1)
    } else {
        i
    }
}

/// The word that covers a column: its first character and the one past its
/// last. None on white space, and none past the end.
pub open spec fn word_at(s: Seq<char>, col: int) -> Option<(int, int)> {
    let i = char_at(s, col, 0);
    if i >= s.len() || text::space(s[i]) {
        None
    } else {
        Some((editor::run_start(s, i, false), editor::run_end(s, i, false)))
    }
}

/// The word that covers column `col`: its first column, its width in cells,
/// and itself.
pub fn word_span(line: &str, col: usize) -> (r: Option<(usize, usize, String)>)
    ensures
        match word_at(line@, col as int) {
            Some((a, b)) => {
                &&& r matches Some((start, width, word))
                &&& start == cells_of(line@, 0, a)
                &&& width == cells_of(line@, a, b)
                &&& word@ == line@.subrange(a, b)
            },
            None => r is None,
        },
{
    let v = chars(line);
    let mut w: usize = 0;
    let mut i: usize = 0;
    while i < v.len()
        invariant_except_break
            char_at(line@, col as int, 0) == char_at(line@, col as int, i as int),
        invariant
            i <= v.len(),
            v@ == line@,
            w == cells_of(line@, 0, i as int),
        ensures
            i == char_at(line@, col as int, 0),
        decreases v.len() - i,
    {
        let next: usize = w.saturating_add(char_cells(v[i]));
        assert(next == cells_of(line@, 0, i + 1));
        if col < next {
            break;
        }
        w = next;
        i += 1;
    }
    if i >= v.len() || is_space(v[i]) {
        return None;
    }
    let mut a: usize = i;
    while a > 0 && !is_space(v[a - 1])
        invariant
            a <= i < v.len(),
            v@ == line@,
            editor::run_start(line@, i as int, false) == editor::run_start(
                line@,
                a as int,
                false,
            ),
        decreases a,
    {
        a -= 1;
    }
    let mut b: usize = i;
    while b < v.len() && !is_space(v[b])
        invariant
            i <= b <= v.len(),
            v@ == line@,
            editor::run_end(line@, i as int, false) == editor::run_end(line@, b as int, false),
        decreases v.len() - b,
    {
        b += 1;
    }
    let start = width_between(&v, 0, a);
    let width = width_between(&v, a, b);
    Some((start, width, string_of(&v, a, b)))
}

fn width_between(v: &Vec<char>, a: usize, b: usize) -> (r: usize)
    requires
        a <= b <= v.len(),
    ensures
        r == cells_of(v@, a as int, b as int),
{
    let mut w: usize = 0;
    let mut i: usize = a;
    while i < b
        invariant
            a <= i <= b <= v.len(),
            w == cells_of(v@, a as int, i as int),
        decreases b - i,
    {
        w = w.saturating_add(char_cells(v[i]));
        i += 1;
    }
    w
}

// --- the chat pane ----------------------------------------------------------

/// Where a prompt of the user's stands: its cell of the timeline, and its
/// first line of the layout.
#[derive(Debug, Clone, Copy, PartialEq, Eq, Structural)]
pub struct PromptRow {
    pub cell: usize,
    pub line: usize,
}

/// The chat pane as the last frame showed it. Only the lines on screen are
/// kept.
#[derive(Debug, Clone, PartialEq, Eq)]
pub struct ChatView {
    pub area: Rect,
    /// The layout line at the top of the pane.
    pub top: usize,
    /// How many lines the layout has, the running indicator's with them.
    pub total: usize,
    /// The text of the lines on screen.
    pub lines: Vec<String>,
    /// For each line on screen, the tool cell it belongs to.
    pub owners: Vec<Option<usize>>,
    /// The user's prompts in the layout, in order.
    pub users: Vec<PromptRow>,
}

#[verifier::ext_equal]
pub struct Pane {
    pub area: Rect,
    pub top: usize,
    pub total: usize,
    pub lines: Seq<Seq<char>>,
    pub owners: Seq<Option<usize>>,
    pub users: Seq<PromptRow>,
}

impl View for ChatView {
    type V = Pane;

    open spec fn view(&self) -> Pane {
        Pane {
            area: self.area,
            top: self.top,
            total: self.total,
            lines: text::views(self.lines@),
            owners: self.owners@,
            users: self.users@,
        }
    }
}

impl Pane {
    pub open spec fn blank() -> Pane {
        Pane {
            area: Rect::nowhere(),
            top: 0,
            total: 0,
            lines: Seq::empty(),
            owners: Seq::empty(),
            users: Seq::empty(),
        }
    }

    /// The text of a layout line, where it is on screen.
    pub open spec fn line_text(self, line: int) -> Option<Seq<char>> {
        if 0 <= line - self.top < self.lines.len() {
            Some(self.lines[line - self.top])
        } else {
            None
        }
    }

    /// The tool cell a layout line belongs to, where it is on screen.
    pub open spec fn line_owner(self, line: int) -> Option<usize> {
        if 0 <= line - self.top < self.owners.len() {
            self.owners[line - self.top]
        } else {
            None
        }
    }

    /// The point under a cell of the pane. Below the last line it is that
    /// line.
    pub open spec fn hit(self, col: u16, row: u16) -> Option<SelPoint> {
        if self.lines.len() == 0 || !self.area.covers(col, row) {
            None
        } else {
            let down = row - self.area.y;
            let rel = if down < self.lines.len() {
                down
            } else {
                self.lines.len() - 1
            };
            Some(
                SelPoint {
                    line: layout::cap(self.top + rel) as usize,
                    col: (col - self.area.x) as usize,
                },
            )
        }
    }

    /// The point under the cell of the pane that is nearest to a cell.
    pub open spec fn nearest(self, col: u16, row: u16) -> SelPoint {
        let a = self.area;
        match self.hit(
            within(col, a.x, edge(a.x, less_one(a.width))),
            within(row, a.y, edge(a.y, less_one(a.height))),
        ) {
            Some(p) => p,
            None => SelPoint { line: 0, col: 0 },
        }
    }

    /// The part of line `i` on screen that a selection covers, without the
    /// white space at its end.
    pub open spec fn selected_line(self, s: SelPoint, e: SelPoint, i: int) -> Seq<char> {
        text::trim_end(
            sliced(
                self.lines[i],
                if self.top + i == s.line {
                    s.col as int
                } else {
                    0
                },
                if self.top + i == e.line {
                    layout::cap(e.col + 1)
                } else {
                    usize::MAX as int
                },
                self.lines[i].len() as int,
            ),
        )
    }

    /// The selected parts of the lines `from..=to`.
    pub open spec fn selected_lines(self, s: SelPoint, e: SelPoint, from: int, to: int) -> Seq<
        Seq<char>,
    > {
        Seq::new((to - from + 1) as nat, |i: int| self.selected_line(s, e, from + i))
    }

    /// The text of a selection: its part of each line on screen, one below
    /// the other.
    pub open spec fn selected(self, sel: Selection) -> Seq<char> {
        let (s, e) = sel.ends();
        let first = if s.line >= self.top {
            s.line - self.top
        } else {
            0
        };
        let last = if e.line - self.top < self.lines.len() {
            e.line - self.top
        } else {
            self.lines.len() - 1
        };
        if self.lines.len() == 0 || e.line < self.top || first > last {
            Seq::empty()
        } else {
            text::joined(self.selected_lines(s, e, first, last), "\n"@)
        }
    }
}

/// One less, where there is one.
pub open spec fn less_one(n: u16) -> u16 {
    if n == 0 {
        0
    } else {
        (n - 1) as u16
    }
}

/// `n` made to lie between two bounds.
pub open spec fn within(n: u16, low: u16, high: int) -> u16 {
    if n < low {
        low
    } else if n > high {
        high as u16
    } else {
        n
    }
}

impl ChatView {
    /// No frame drawn yet.
    pub fn new() -> (r: Self)
        ensures
            r@ == Pane::blank(),
    {
        let r = ChatView {
            area: Rect::none(),
            top: 0,
            total: 0,
            lines: Vec::new(),
            owners: Vec::new(),
            users: Vec::new(),
        };
        assert(r@.lines == Seq::<Seq<char>>::empty());
        r
    }

    /// The text of a layout line, where it is on screen.
    pub fn line_text(&self, line: usize) -> (r: Option<&String>)
        ensures
            match r {
                Some(s) => self@.line_text(line as int) == Some(s@),
                None => self@.line_text(line as int) is None,
            },
    {
        if line < self.top || line - self.top >= self.lines.len() {
            return None;
        }
        assert(self@.lines[line - self.top] == self.lines@[line - self.top]@);
        Some(&self.lines[line - self.top])
    }

    /// The tool cell a layout line belongs to, where it is on screen.
    pub fn line_owner(&self, line: usize) -> (r: Option<usize>)
        ensures
            r == self@.line_owner(line as int),
    {
        if line < self.top || line - self.top >= self.owners.len() {
            return None;
        }
        self.owners[line - self.top]
    }

    /// The point under a cell of the screen, where that is in the pane.
    pub fn hit(&self, col: u16, row: u16) -> (r: Option<SelPoint>)
        ensures
            r == self@.hit(col, row),
    {
        if self.lines.len() == 0 || !self.area.contains(col, row) {
            return None;
        }
        let down: usize = (row - self.area.y) as usize;
        let rel: usize = if down < self.lines.len() {
            down
        } else {
            self.lines.len() - 1
        };
        Some(SelPoint { line: self.top.saturating_add(rel), col: (col - self.area.x) as usize })
    }

    /// The point under the cell of the pane that is nearest to a cell.
    pub fn clamp(&self, col: u16, row: u16) -> (r: SelPoint)
        ensures
            r == self@.nearest(col, row),
    {
        let a = self.area;
        let right: u16 = a.x.saturating_add(a.width.saturating_sub(1));
        let bottom: u16 = a.y.saturating_add(a.height.saturating_sub(1));
        let c: u16 = if col < a.x {
            a.x
        } else if col > right {
            right
        } else {
            col
        };
        let r: u16 = if row < a.y {
            a.y
        } else if row > bottom {
            bottom
        } else {
            row
        };
        match self.hit(c, r) {
            Some(p) => p,
            None => SelPoint { line: 0, col: 0 },
        }
    }

    /// The text of a selection: its part of each line on screen, one below
    /// the other.
    pub fn selection_text(&self, sel: Selection) -> (r: String)
        ensures
            r@ == self@.selected(sel),
    {
        if self.lines.len() == 0 {
            return String::new();
        }
        let (s, e) = sel.ordered();
        if e.line < self.top {
            return String::new();
        }
        let first: usize = s.line.saturating_sub(self.top);
        let n: usize = e.line - self.top;
        let last: usize = if n < self.lines.len() {
            n
        } else {
            self.lines.len() - 1
        };
        if first > last {
            return String::new();
        }
        let mut out: Vec<String> = Vec::new();
        let mut i: usize = first;
        let ghost pane = self@;
        assert(text::views(out@) == pane.selected_lines(s, e, first as int, first - 1));
        while i <= last
            invariant
                first <= i <= last + 1,
                last < self.lines.len(),
                pane == self@,
                text::views(out@) == pane.selected_lines(s, e, first as int, i - 1),
            decreases last + 1 - i,
        {
            let here = i <= usize::MAX - self.top && i + self.top == s.line;
            let there = i <= usize::MAX - self.top && i + self.top == e.line;
            let c0: usize = if here {
                s.col
            } else {
                0
            };
            let c1: usize = if there {
                e.col.saturating_add(1)
            } else {
                usize::MAX
            };
            assert(pane.lines[i as int] == self.lines@[i as int]@);
            let ghost before = text::views(out@);
            let part = slice_by_cells(self.lines[i].as_str(), c0, c1);
            let part = end_trimmed(part.as_str());
            out.push(part);
            assert(part@ == pane.selected_line(s, e, i as int));
            assert(text::views(out@) == before.push(part@));
            assert(pane.selected_lines(s, e, first as int, i as int) == pane.selected_lines(
                s,
                e,
                first as int,
                i - 1,
            ).push(pane.selected_line(s, e, i as int)));
            i += 1;
        }
        join(&out, "\n")
    }
}

} // verus!
