//! What selecting promises: which characters cells show, which word a column
//! falls on, and what of the lines on screen a selection covers.

use vstd::prelude::*;
use crate::input::editor;
use crate::input::editor::Field;
use crate::selection;
use crate::selection::{InputSel, Pane, Rect, SelPoint, Selection};
use crate::text;

verus! {

/// The widths of the characters before a place, added up.
pub open spec fn width_before(s: Seq<char>, i: int) -> int
    decreases i,
{
    if i <= 0 {
        0
    } else {
        width_before(s, i - 1) + editor::cells(s[i - 1])
    }
}

proof fn sums(s: Seq<char>, i: int, n: int)
    requires
        0 <= i <= n <= s.len(),
        width_before(s, n) <= usize::MAX,
    ensures
        selection::cells_of(s, 0, i) == width_before(s, i),
        0 <= i <= width_before(s, i) <= width_before(s, n),
    decreases i,
{
    grows(s, i, n);
    if i > 0 {
        sums(s, i - 1, n);
    }
}

proof fn grows(s: Seq<char>, i: int, n: int)
    requires
        0 <= i <= n <= s.len(),
    ensures
        i <= width_before(s, i) <= width_before(s, n),
    decreases n,
{
    if i < n {
        grows(s, i, n - 1);
    } else if n > 0 {
        grows(s, n - 1, n - 1);
    }
}

/// What cells `c0..c1` show of a line is every character that overlaps them, in
/// order, and no other.
pub proof fn a_slice_is_what_the_cells_show(s: Seq<char>, c0: int, c1: int, n: int)
    requires
        0 <= n <= s.len(),
        width_before(s, s.len() as int) <= usize::MAX,
    ensures
        selection::sliced(s, c0, c1, n).len() <= n,
        n > 0 && width_before(s, n - 1) < c1 && width_before(s, n) > c0 ==> selection::sliced(
            s,
            c0,
            c1,
            n,
        ) == selection::sliced(s, c0, c1, n - 1).push(s[n - 1]),
        n > 0 && !(width_before(s, n - 1) < c1 && width_before(s, n) > c0) ==> selection::sliced(
            s,
            c0,
            c1,
            n,
        ) == selection::sliced(s, c0, c1, n - 1),
        c0 <= 0 && c1 >= width_before(s, s.len() as int) ==> selection::sliced(s, c0, c1, n)
            == s.take(n),
    decreases n,
{
    if n > 0 {
        sums(s, n, s.len() as int);
        sums(s, n - 1, s.len() as int);
        a_slice_is_what_the_cells_show(s, c0, c1, n - 1);
        grows(s, n - 1, n);
        assert(s.take(n) =~= s.take(n - 1).push(s[n - 1]));
    } else {
        assert(s.take(0) =~= Seq::<char>::empty());
    }
}

proof fn run_begins(s: Seq<char>, i: int, spaces: bool)
    requires
        0 <= i <= s.len(),
    ensures
        ({
            let a = editor::run_start(s, i, spaces);
            &&& 0 <= a <= i
            &&& a == 0 || text::space(s[a - 1]) != spaces
            &&& forall|k: int| a <= k < i ==> text::space(#[trigger] s[k]) == spaces
        }),
    decreases i,
{
    if i > 0 && text::space(s[i - 1]) == spaces {
        run_begins(s, i - 1, spaces);
    }
}

proof fn run_ends(s: Seq<char>, i: int, spaces: bool)
    requires
        0 <= i <= s.len(),
    ensures
        ({
            let b = editor::run_end(s, i, spaces);
            &&& i <= b <= s.len()
            &&& b == s.len() || text::space(s[b]) != spaces
            &&& forall|k: int| i <= k < b ==> text::space(#[trigger] s[k]) == spaces
        }),
    decreases s.len() - i,
{
    if i < s.len() && text::space(s[i]) == spaces {
        run_ends(s, i + 1, spaces);
    }
}

proof fn column_found(s: Seq<char>, col: int, i: int)
    requires
        0 <= i <= s.len(),
        width_before(s, s.len() as int) <= usize::MAX,
        width_before(s, i) <= col,
    ensures
        ({
            let k = selection::char_at(s, col, i);
            &&& i <= k <= s.len()
            &&& width_before(s, k) <= col
            &&& k < s.len() ==> col < width_before(s, k + 1)
        }),
    decreases s.len() - i,
{
    if i < s.len() {
        sums(s, i + 1, s.len() as int);
        if col >= selection::cells_of(s, 0, i + 1) {
            column_found(s, col, i + 1);
        }
    }
}

/// The word at a column is a whole one: it holds no white space, white space or
/// an end of the line is on either side of it, and the column falls on it. On
/// white space, and past the end, there is none.
pub proof fn a_word_is_whole(s: Seq<char>, col: int)
    requires
        col >= 0,
        width_before(s, s.len() as int) <= usize::MAX,
    ensures
        match selection::word_at(s, col) {
            Some((a, b)) => {
                &&& 0 <= a < b <= s.len()
                &&& a == 0 || text::space(s[a - 1])
                &&& b == s.len() || text::space(s[b])
                &&& forall|k: int| a <= k < b ==> !text::space(#[trigger] s[k])
                &&& width_before(s, a) <= col < width_before(s, b)
            },
            None => col >= width_before(s, s.len() as int) || exists|k: int|
                0 <= k < s.len() && text::space(#[trigger] s[k]) && width_before(s, k) <= col
                    < width_before(s, k + 1),
        },
{
    column_found(s, col, 0);
    let i = selection::char_at(s, col, 0);
    if i < s.len() && !text::space(s[i]) {
        run_begins(s, i, false);
        run_ends(s, i, false);
        grows(s, editor::run_start(s, i, false), i);
        grows(s, i + 1, editor::run_end(s, i, false));
        let b = editor::run_end(s, i, false);
        if b == i {
            assert(text::space(s[i]));
        }
    }
}

/// The word before the cursor of a field: white space is passed over, and then
/// the word as a whole. The word after it likewise.
pub proof fn fields_go_word_by_word(f: Field)
    requires
        0 <= f.cursor <= f.buf.len(),
    ensures
        ({
            let p = f.prev_word();
            &&& 0 <= p <= f.cursor
            &&& p == 0 || text::space(f.buf[p - 1])
            &&& p < f.cursor && f.cursor > 0 && !text::space(f.buf[f.cursor - 1]) ==> forall|k: int|
                p <= k < f.cursor ==> !text::space(#[trigger] f.buf[k])
            &&& f.cursor > 0 ==> p < f.cursor
        }),
        ({
            let n = f.next_word();
            &&& f.cursor <= n <= f.buf.len()
            &&& n == f.buf.len() || text::space(f.buf[n])
            &&& f.cursor < f.buf.len() ==> n > f.cursor
            &&& f.cursor < f.buf.len() && !text::space(f.buf[f.cursor]) ==> forall|k: int|
                f.cursor <= k < n ==> !text::space(#[trigger] f.buf[k])
        }),
{
    let b = f.buf;
    let c = f.cursor;
    run_begins(b, c, true);
    let p = editor::run_start(b, c, true);
    run_begins(b, p, false);
    run_ends(b, c, true);
    let n = editor::run_end(b, c, true);
    run_ends(b, n, false);
    if c > 0 && !text::space(b[c - 1]) {
        assert(p == c) by {
            if p < c {
                assert(text::space(b[c - 1]));
            }
        }
    }
    if c < b.len() && !text::space(b[c]) {
        assert(n == c) by {
            if n > c {
                assert(text::space(b[c]));
            }
        }
        assert(editor::run_end(b, c, false) > c);
    }
    if p > 0 && p == c {
        assert(!text::space(b[p - 1]));
        assert(editor::run_start(b, p, false) < p);
    }
}

/// What is typed into a field stands at its cursor, and the cursor behind it.
pub proof fn typing_lands_at_the_cursor(f: Field, s: Seq<char>)
    requires
        0 <= f.cursor <= f.buf.len(),
    ensures
        f.inserted(s).buf == f.buf.take(f.cursor) + s + f.buf.skip(f.cursor),
        f.inserted(s).cursor == f.cursor + s.len(),
        f.cursor > 0 ==> f.backspaced().buf == f.buf.take(f.cursor - 1) + f.buf.skip(f.cursor)
            && f.backspaced().cursor == f.cursor - 1,
        f.cursor == 0 ==> f.backspaced() == f,
{
}

/// A rectangle covers the cells from its corner on, as many as it is wide and
/// high; one without extent covers none.
pub proof fn a_rectangle_covers_its_cells(r: Rect, col: u16, row: u16)
    requires
        r.x + r.width <= u16::MAX,
        r.y + r.height <= u16::MAX,
    ensures
        r.covers(col, row) == (r.x <= col && col < r.x + r.width && r.y <= row && row < r.y
            + r.height),
        selection::over(None, col, row) == false,
        selection::over(Some(r), col, row) == r.covers(col, row),
{
}

/// The point under a cell of the pane is that cell's line and column; below the
/// last line it is on the last line, and outside the pane there is none.
pub proof fn a_cell_is_a_point(p: Pane, col: u16, row: u16)
    requires
        p.lines.len() > 0,
        p.top + p.lines.len() <= usize::MAX,
        p.area.x + p.area.width <= u16::MAX,
        p.area.y + p.area.height <= u16::MAX,
    ensures
        p.hit(col, row) is Some == p.area.covers(col, row),
        p.hit(col, row) matches Some(at) ==> at.col == col - p.area.x && at.line == p.top + if row
            - p.area.y < p.lines.len() {
            row - p.area.y
        } else {
            p.lines.len() - 1
        },
        p.area.covers(col, row) ==> p.hit(col, row) == Some(p.nearest(col, row)),
{
}

/// A drag past an edge of the pane points at that edge.
pub proof fn a_drag_stays_in_the_pane(p: Pane, col: u16, row: u16)
    requires
        p.lines.len() > 0,
        p.top + p.lines.len() <= usize::MAX,
        p.area.width > 0,
        p.area.height > 0,
        p.area.x + p.area.width <= u16::MAX,
        p.area.y + p.area.height <= u16::MAX,
    ensures
        ({
            let at = p.nearest(col, row);
            &&& col < p.area.x ==> at.col == 0
            &&& col >= p.area.x + p.area.width ==> at.col == p.area.width - 1
            &&& p.area.x <= col < p.area.x + p.area.width ==> at.col == col - p.area.x
            &&& row < p.area.y ==> at.line == p.top
            &&& p.top <= at.line < p.top + p.lines.len()
        }),
{
}

/// The text and the owner of a line are those of its place on screen.
pub proof fn lines_are_found_on_screen(p: Pane, line: int)
    ensures
        p.top <= line < p.top + p.lines.len() ==> p.line_text(line) == Some(
            p.lines[line - p.top],
        ),
        line < p.top || line >= p.top + p.lines.len() ==> p.line_text(line) is None,
        p.top <= line < p.top + p.owners.len() ==> p.line_owner(line) == p.owners[line - p.top],
        line < p.top || line >= p.top + p.owners.len() ==> p.line_owner(line) is None,
{
}

/// The ends of a selection are its anchor and its head, in reading order.
pub proof fn ends_are_in_reading_order(s: Selection, d: InputSel)
    ensures
        s.ends() == (s.anchor, s.head) || s.ends() == (s.head, s.anchor),
        s.ends().0.line < s.ends().1.line || (s.ends().0.line == s.ends().1.line && s.ends().0.col
            <= s.ends().1.col),
        d.ends() == (d.anchor, d.head) || d.ends() == (d.head, d.anchor),
        d.ends().0.0 < d.ends().1.0 || (d.ends().0.0 == d.ends().1.0 && d.ends().0.1
            <= d.ends().1.1),
{
}

/// A selection within one line on screen is what its cells show, the cell under
/// the pointer with it and the white space at the end left out.
pub proof fn a_selection_in_a_line(p: Pane, s: Selection)
    requires
        s.anchor.line == s.head.line,
        p.top <= s.head.line < p.top + p.lines.len(),
        s.anchor.col < usize::MAX,
        s.head.col < usize::MAX,
    ensures
        ({
            let lo = if s.anchor.col < s.head.col { s.anchor.col } else { s.head.col };
            let hi = if s.anchor.col < s.head.col { s.head.col } else { s.anchor.col };
            let line = p.lines[s.head.line - p.top];
            p.selected(s) == text::trim_end(
                selection::sliced(line, lo as int, hi + 1, line.len() as int),
            )
        }),
{
    let (a, b) = s.ends();
    let i = s.head.line - p.top;
    let all = p.selected_lines(a, b, i, i);
    assert(all =~= seq![p.selected_line(a, b, i)]);
    reveal_with_fuel(text::joined, 2);
}

/// A selection over several lines takes the first from its column on, the last
/// up to its column, and the lines between whole, one below the other.
pub proof fn a_selection_over_lines(p: Pane, s: SelPoint, e: SelPoint, i: int)
    requires
        0 <= i < p.lines.len(),
        s.line < e.line,
        e.col < usize::MAX,
    ensures
        p.top + i == s.line ==> p.selected_line(s, e, i) == text::trim_end(
            selection::sliced(p.lines[i], s.col as int, usize::MAX as int, p.lines[i].len() as int),
        ),
        p.top + i == e.line ==> p.selected_line(s, e, i) == text::trim_end(
            selection::sliced(p.lines[i], 0, e.col + 1, p.lines[i].len() as int),
        ),
        s.line < p.top + i < e.line && width_before(p.lines[i], p.lines[i].len() as int)
            <= usize::MAX ==> p.selected_line(s, e, i) == text::trim_end(p.lines[i]),
{
    if s.line < p.top + i < e.line && width_before(p.lines[i], p.lines[i].len() as int)
        <= usize::MAX {
        let l = p.lines[i];
        a_slice_is_what_the_cells_show(l, 0, usize::MAX as int, l.len() as int);
        assert(l.take(l.len() as int) =~= l);
    }
}

} // verus!
