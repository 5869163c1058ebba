//! The composer's layout mirror: where each grapheme of the draft stands on
//! the screen once its lines are wrapped to the width of the well.

use vstd::prelude::*;
use crate::input::area;
use crate::text;
use crate::text::{chars, same};
use unicode_segmentation::UnicodeSegmentation;
use unicode_width::UnicodeWidthChar;

verus! {

/// Tab stops, matching the widget's default tab length.
pub const TAB_LEN: usize = 4;

/// The columns that `UnicodeWidthChar::width` gives a character, `None` for a
/// control character.
pub uninterp spec fn unicode_columns(c: char) -> Option<usize>;

/// The grapheme clusters that `UnicodeSegmentation::grapheme_indices` cuts a
/// line into.
pub uninterp spec fn graphemes(line: Seq<char>) -> Seq<Seq<char>>;

/// `UnicodeWidthChar::width`.
#[verifier::external_body]
pub(crate) fn char_columns(c: char) -> (r: Option<usize>)
    ensures
        r == unicode_columns(c),
{
    UnicodeWidthChar::width(c)
}

/// `UnicodeSegmentation::grapheme_indices` with extended clusters: none of
/// them is empty, and in a row they are the line.
#[verifier::external_body]
pub(crate) fn grapheme_list(line: &str) -> (r: Vec<String>)
    ensures
        text::views(r@) == graphemes(line@),
        flat(text::views(r@)) == line@,
        forall|i: int| 0 <= i < r@.len() ==> (#[trigger] r@[i])@.len() > 0,
{
    line.grapheme_indices(true).map(|(_, g)| g.to_string()).collect()
}

/// The pieces in a row.
pub open spec fn flat(p: Seq<Seq<char>>) -> Seq<char>
    decreases p.len(),
{
    if p.len() == 0 {
        Seq::empty()
    } else {
        flat(p.drop_last()) + p.last()
    }
}

proof fn flat_prefix(p: Seq<Seq<char>>, k: int)
    requires
        0 <= k <= p.len(),
    ensures
        flat(p.take(k)).len() <= flat(p).len(),
        k < p.len() ==> flat(p.take(k)).len() + p[k].len() <= flat(p).len(),
    decreases p.len(),
{
    if k == p.len() {
        assert(p.take(k) == p);
    } else {
        assert(p.drop_last().take(k) == p.take(k));
        flat_prefix(p.drop_last(), k);
        if k == p.len() - 1 {
            assert(p.take(k) == p.drop_last());
        }
    }
}

/// `n`, or the largest count there is.
pub open spec fn cap(n: int) -> int {
    if n <= usize::MAX {
        n
    } else {
        usize::MAX as int
    }
}

/// The columns of a character, none for a control character.
pub open spec fn columns(c: char) -> int {
    match unicode_columns(c) {
        Some(w) => w as int,
        None => 0,
    }
}

/// The width of the first `n` characters of a grapheme that starts at display
/// column `col`: a tab reaches to the next stop.
pub open spec fn width_of(g: Seq<char>, col: int, n: int) -> int
    decreases n,
{
    if n <= 0 {
        0
    } else {
        let w = width_of(g, col, n - 1);
        if g[n - 1] == '\t' {
            cap(w + 4 - (col + w) % 4)
        } else {
            cap(w + columns(g[n - 1]))
        }
    }
}

/// The display width of a grapheme that starts at display column `col`.
/// Measured by characters, as the widget wraps.
pub open spec fn glyph_width(g: Seq<char>, col: int) -> int {
    width_of(g, col, g.len() as int)
}

proof fn remainders_add(a: int, b: int)
    ensures
        (a % 4 + b % 4) % 4 == (a + b) % 4,
{
}

fn grapheme_width(g: &str, col: usize) -> (r: usize)
    ensures
        r == glyph_width(g@, col as int),
{
    let v = chars(g);
    let mut width: usize = 0;
    let mut i: usize = 0;
    while i < v.len()
        invariant
            i <= v.len(),
            v@ == g@,
            width == width_of(g@, col as int, i as int),
        decreases v.len() - i,
    {
        if v[i] == '\t' {
            let at: usize = (col % TAB_LEN + width % TAB_LEN) % TAB_LEN;
            proof {
                remainders_add(col as int, width as int);
            }
            width = width.saturating_add(TAB_LEN - at);
        } else {
            let w: usize = match char_columns(v[i]) {
                Some(w) => w,
                None => 0,
            };
            width = width.saturating_add(w);
        }
        i += 1;
    }
    width
}

/// One grapheme's placement: its characters in the buffer and its cells on
/// the row.
#[derive(Debug, Clone, Copy, PartialEq, Eq, Structural)]
pub struct GraphemeLayout {
    pub start_char: usize,
    pub end_char: usize,
    pub start_col: usize,
    pub width: usize,
}

/// One screen row.
#[derive(Debug, Clone, PartialEq, Eq)]
pub struct RowLayout {
    pub line: usize,
    /// Offset of the first grapheme on this row.
    pub start_char: usize,
    /// Offset just past the last grapheme on this row.
    pub end_char: usize,
    pub graphemes: Vec<GraphemeLayout>,
}

/// The whole mirror.
#[derive(Debug, Clone, PartialEq, Eq)]
pub struct LayoutMap {
    pub rows: Vec<RowLayout>,
    /// Characters in the buffer, newlines counted.
    pub total_chars: usize,
}

/// A placed grapheme.
pub struct Glyph {
    pub start: int,
    pub end: int,
    pub col: int,
    pub width: int,
}

/// A screen row.
#[verifier::ext_equal]
pub struct Row {
    pub line: int,
    pub start: int,
    pub end: int,
    pub glyphs: Seq<Glyph>,
}

/// A layout.
#[verifier::ext_equal]
pub struct Layout {
    pub rows: Seq<Row>,
    pub total: int,
}

impl View for GraphemeLayout {
    type V = Glyph;

    open spec fn view(&self) -> Glyph {
        Glyph {
            start: self.start_char as int,
            end: self.end_char as int,
            col: self.start_col as int,
            width: self.width as int,
        }
    }
}

impl View for RowLayout {
    type V = Row;

    open spec fn view(&self) -> Row {
        Row {
            line: self.line as int,
            start: self.start_char as int,
            end: self.end_char as int,
            glyphs: self.graphemes@.map_values(|g: GraphemeLayout| g@),
        }
    }
}

impl View for LayoutMap {
    type V = Layout;

    open spec fn view(&self) -> Layout {
        Layout {
            rows: self.rows@.map_values(|r: RowLayout| r@),
            total: self.total_chars as int,
        }
    }
}

/// A line half wrapped: the rows that are full, and the one being filled.
#[verifier::ext_equal]
pub struct Wrap {
    pub rows: Seq<Row>,
    pub start: int,
    pub glyphs: Seq<Glyph>,
    pub at: int,
    pub col: int,
}

impl Wrap {
    /// The row being filled.
    pub open spec fn row(self, line: int) -> Row {
        Row { line, start: self.start, end: self.at, glyphs: self.glyphs }
    }

    /// The row being filled is full.
    pub open spec fn flushed(self, line: int) -> Wrap {
        Wrap {
            rows: self.rows.push(self.row(line)),
            start: self.at,
            glyphs: Seq::empty(),
            at: self.at,
            col: 0,
        }
    }

    /// One more grapheme. One that would overflow a row with something on it
    /// begins the next; one wider than a row stands alone on its own.
    pub open spec fn placed(self, g: Seq<char>, width: int, line: int) -> Wrap {
        let w = if self.glyphs.len() > 0 && self.col + glyph_width(g, self.col) > width {
            self.flushed(line)
        } else {
            self
        };
        let cells = glyph_width(g, w.col);
        let glyph = Glyph { start: w.at, end: w.at + g.len(), col: w.col, width: cells };
        let next = Wrap {
            glyphs: w.glyphs.push(glyph),
            at: w.at + g.len(),
            col: w.col + cells,
            ..w
        };
        if next.col > width {
            next.flushed(line)
        } else {
            next
        }
    }
}

/// The first `k` graphemes of a line that starts at offset `start`, wrapped.
pub open spec fn wrapped(gs: Seq<Seq<char>>, k: int, width: int, line: int, start: int) -> Wrap
    decreases k,
{
    if k <= 0 {
        Wrap { rows: Seq::empty(), start, glyphs: Seq::empty(), at: start, col: 0 }
    } else {
        wrapped(gs, k - 1, width, line, start).placed(gs[k - 1], width, line)
    }
}

/// The screen rows of a line: an empty line is one empty row.
pub open spec fn line_rows(gs: Seq<Seq<char>>, width: int, line: int, start: int) -> Seq<Row> {
    let w = wrapped(gs, gs.len() as int, width, line, start);
    if w.glyphs.len() > 0 || w.rows.len() == 0 {
        w.rows.push(w.row(line))
    } else {
        w.rows
    }
}

/// The screen rows of the first `k` lines.
pub open spec fn screen_rows(lines: Seq<Seq<char>>, k: int, width: int) -> Seq<Row>
    decreases k,
{
    if k <= 0 {
        Seq::empty()
    } else {
        screen_rows(lines, k - 1, width) + line_rows(
            graphemes(lines[k - 1]),
            width,
            k - 1,
            area::offset(lines, k - 1, 0),
        )
    }
}

/// The layout of a text at a width of at least one cell.
pub open spec fn layout_of(lines: Seq<Seq<char>>, width: int) -> Layout {
    let w = if width < 1 { 1 } else { width };
    Layout {
        rows: screen_rows(lines, lines.len() as int, w),
        total: text::joined(lines, seq!['\n']).len() as int,
    }
}

/// The offset of a line's start is what stands before it, newlines counted.
pub proof fn offset_in_joined(lines: Seq<Seq<char>>, row: int, col: int)
    requires
        0 <= row < lines.len(),
        0 <= col <= lines[row].len(),
    ensures
        0 <= area::offset(lines, row, 0),
        area::offset(lines, row, col) == area::offset(lines, row, 0) + col,
        area::offset(lines, row, col) <= text::joined(lines, seq!['\n']).len(),
        row == lines.len() - 1 ==> area::offset(lines, row, lines[row].len() as int) == text::joined(
            lines,
            seq!['\n'],
        ).len(),
    decreases lines.len(),
{
    reveal_with_fuel(area::offset, 2);
    if lines.len() > 1 {
        if row > 0 {
            let rest = lines.skip(1);
            offset_shift(lines, row, col);
            offset_shift(lines, row, 0);
            offset_shift(lines, row, lines[row].len() as int);
            offset_in_joined(rest, row - 1, col);
            if row == lines.len() - 1 {
                offset_in_joined(rest, row - 1, rest[row - 1].len() as int);
            }
        }
    }
}

/// The first line stands before all others.
pub proof fn offset_shift(lines: Seq<Seq<char>>, row: int, col: int)
    requires
        0 < row < lines.len(),
    ensures
        area::offset(lines, row, col) == lines[0].len() + 1 + area::offset(lines.skip(1), row - 1, col),
    decreases row,
{
    reveal_with_fuel(area::offset, 2);
    if row > 1 {
        offset_shift(lines, row - 1, lines[row - 1].len() as int);
        assert(lines.skip(1)[row - 2] == lines[row - 1]);
    }
}

/// Graphemes that fill the characters from `from` to `to` without a gap, and the
/// cells of a row from its first column on.
pub open spec fn tiles(glyphs: Seq<Glyph>, from: int, to: int) -> bool {
    &&& glyphs.len() == 0 ==> from == to
    &&& glyphs.len() > 0 ==> glyphs[0].start == from && glyphs[0].col == 0 && glyphs.last().end
        == to
    &&& forall|i: int| 0 <= i < glyphs.len() ==> (#[trigger] glyphs[i]).start < glyphs[i].end
    &&& forall|i: int, j: int|
        0 <= i && j == i + 1 && j < glyphs.len() ==> (#[trigger] glyphs[j]).start == (
        #[trigger] glyphs[i]).end && glyphs[j].col == glyphs[i].col + glyphs[i].width
}

/// A line half wrapped accounts for every character so far, and its full rows
/// follow one another.
pub open spec fn sound(w: Wrap, line: int, start: int, width: int) -> bool {
    &&& w.start <= w.at
    &&& tiles(w.glyphs, w.start, w.at)
    &&& w.glyphs.len() > 0 ==> w.col == w.glyphs.last().col + w.glyphs.last().width
    &&& forall|i: int| 0 <= i < w.rows.len() ==> (#[trigger] w.rows[i]).tiled()
    &&& w.col <= width
    &&& w.glyphs.len() == 0 ==> w.col == 0 && w.at == w.start
    &&& w.rows.len() == 0 ==> w.start == start
    &&& w.rows.len() > 0 ==> w.rows[0].start == start && w.rows.last().end == w.start
    &&& forall|i: int|
        0 <= i < w.rows.len() ==> (#[trigger] w.rows[i]).line == line && w.rows[i].start
            < w.rows[i].end && w.rows[i].glyphs.len() > 0
    &&& forall|i: int, j: int|
        0 <= i && j == i + 1 && j < w.rows.len() ==> (#[trigger] w.rows[i]).end == (
        #[trigger] w.rows[j]).start
}

proof fn tiles_grow(glyphs: Seq<Glyph>, from: int, to: int, g: Glyph)
    requires
        tiles(glyphs, from, to),
        g.start == to,
        g.start < g.end,
        g.col == if glyphs.len() == 0 {
            0
        } else {
            glyphs.last().col + glyphs.last().width
        },
    ensures
        tiles(glyphs.push(g), from, g.end),
{
}

proof fn wrapped_sound(gs: Seq<Seq<char>>, k: int, width: int, line: int, start: int)
    requires
        0 <= k <= gs.len(),
        width >= 1,
        forall|i: int| 0 <= i < gs.len() ==> (#[trigger] gs[i]).len() > 0,
    ensures
        sound(wrapped(gs, k, width, line, start), line, start, width),
        wrapped(gs, k, width, line, start).at == start + flat(gs.take(k)).len(),
        k > 0 ==> wrapped(gs, k, width, line, start).glyphs.len() > 0 || wrapped(
            gs,
            k,
            width,
            line,
            start,
        ).rows.len() > 0,
        wrapped(gs, k, width, line, start).glyphs.len() > 0 ==> wrapped(
            gs,
            k,
            width,
            line,
            start,
        ).start < wrapped(gs, k, width, line, start).at,
    decreases k,
{
    if k > 0 {
        wrapped_sound(gs, k - 1, width, line, start);
        assert(gs.take(k).drop_last() == gs.take(k - 1));
        assert(gs.take(k).last() == gs[k - 1]);
        let w = wrapped(gs, k - 1, width, line, start);
        let f = w.flushed(line);
        if w.glyphs.len() > 0 {
            assert(sound(f, line, start, width));
        }
        let g = gs[k - 1];
        let full = w.glyphs.len() > 0 && w.col + glyph_width(g, w.col) > width;
        let on = if full {
            f
        } else {
            w
        };
        let cells = glyph_width(g, on.col);
        let glyph = Glyph { start: on.at, end: on.at + g.len(), col: on.col, width: cells };
        tiles_grow(on.glyphs, on.start, on.at, glyph);
    } else {
        assert(gs.take(0) == Seq::<Seq<char>>::empty());
    }
}

/// The rows of one line, from offset `from` to `to` without a gap. Only the
/// last of them can be empty.
pub open spec fn run(rows: Seq<Row>, line: int, from: int, to: int) -> bool {
    &&& rows.len() > 0
    &&& rows[0].start == from
    &&& rows.last().end == to
    &&& forall|i: int|
        0 <= i < rows.len() ==> (#[trigger] rows[i]).line == line && rows[i].start <= rows[i].end
            && rows[i].tiled()
    &&& forall|i: int, j: int|
        0 <= i && j == i + 1 && j < rows.len() ==> (#[trigger] rows[i]).end == (
        #[trigger] rows[j]).start && rows[i].start < rows[i].end
}

/// Rows from the start of the text to offset `to`: the rows of a line follow
/// one another without a gap, and the next line begins behind a newline.
pub open spec fn follow(rows: Seq<Row>, to: int) -> bool {
    &&& rows.len() > 0
    &&& rows[0].start == 0
    &&& rows.last().end == to
    &&& forall|i: int|
        0 <= i < rows.len() ==> (#[trigger] rows[i]).start <= rows[i].end && rows[i].tiled()
    &&& forall|i: int, j: int|
        0 <= i && j == i + 1 && j < rows.len() ==> (#[trigger] rows[j]).start == (
        #[trigger] rows[i]).end + (if rows[i].line == rows[j].line {
            0int
        } else {
            1
        }) && (rows[i].line == rows[j].line ==> rows[i].start < rows[i].end)
}

proof fn run_follows(rows: Seq<Row>, line: int, from: int, to: int)
    requires
        run(rows, line, from, to),
        from == 0,
    ensures
        follow(rows, to),
        rows.last().line == line,
{
}

proof fn run_extends(rows: Seq<Row>, new: Seq<Row>, at: int, line: int, to: int)
    requires
        follow(rows, at),
        rows.last().line == line - 1,
        run(new, line, at + 1, to),
    ensures
        follow(rows + new, to),
        (rows + new).last().line == line,
{
    let all = rows + new;
    let n = rows.len() as int;
    assert(all.last() == new.last());
    assert forall|i: int| 0 <= i < all.len() implies (#[trigger] all[i]).start <= all[i].end
        && all[i].tiled() by {
        if i >= n {
            assert(all[i] == new[i - n]);
        }
    }
    assert forall|i: int, j: int| 0 <= i && j == i + 1 && j < all.len() implies (
    #[trigger] all[j]).start == (#[trigger] all[i]).end + (if all[i].line == all[j].line {
        0int
    } else {
        1
    }) && (all[i].line == all[j].line ==> all[i].start < all[i].end) by {
        if i >= n {
            assert(all[i] == new[i - n]);
            assert(all[j] == new[j - n]);
        } else if j == n {
            assert(all[j] == new[0]);
        }
    }
}

proof fn owner_from(l: Layout, i: int, c: int)
    requires
        l.paved(),
        0 <= i < l.rows.len(),
        l.rows[i].start <= c <= l.total,
    ensures
        exists|k: int| i <= k < l.rows.len() && #[trigger] l.owns(k, c),
    decreases l.rows.len() - i,
{
    if l.owns(i, c) {
    } else if i + 1 < l.rows.len() {
        assert(l.rows[i + 1].start == l.rows[i].end + if l.rows[i].line == l.rows[i + 1].line {
            0int
        } else {
            1
        });
        owner_from(l, i + 1, c);
    } else {
        assert(l.rows.last() == l.rows[i]);
    }
}

proof fn rows_ascend(l: Layout, i: int, j: int)
    requires
        l.paved(),
        0 <= i < j < l.rows.len(),
    ensures
        l.rows[i].end <= l.rows[j].start,
        l.rows[i].line != l.rows[i + 1].line ==> l.rows[i].end < l.rows[j].start,
    decreases j - i,
{
    if i + 1 < j {
        rows_ascend(l, i + 1, j);
    }
    assert(l.rows[i + 1].start == l.rows[i].end + if l.rows[i].line == l.rows[i + 1].line {
        0int
    } else {
        1
    });
}

/// Every caret offset of a text is shown on one row of its layout, and on no
/// other.
pub proof fn caret_has_one_row(l: Layout, c: int)
    requires
        l.paved(),
        0 <= c <= l.total,
    ensures
        exists|i: int| 0 <= i < l.rows.len() && #[trigger] l.owns(i, c),
        forall|i: int, j: int|
            0 <= i < l.rows.len() && 0 <= j < l.rows.len() && #[trigger] l.owns(i, c)
                && #[trigger] l.owns(j, c) ==> i == j,
{
    owner_from(l, 0, c);
    assert forall|i: int, j: int|
        0 <= i < l.rows.len() && 0 <= j < l.rows.len() && #[trigger] l.owns(i, c)
            && #[trigger] l.owns(j, c) implies i == j by {
        if i < j {
            rows_ascend(l, i, j);
        } else if j < i {
            rows_ascend(l, j, i);
        }
    }
}

proof fn row_ends_within(l: Layout, i: int)
    requires
        l.paved(),
        0 <= i < l.rows.len(),
    ensures
        l.rows[i].end <= l.total,
{
    let last = l.rows.len() - 1;
    assert(l.rows.last() == l.rows[last]);
    if i < last {
        rows_ascend(l, i, last);
    }
}

proof fn glyph_ends_within(row: Row, i: int)
    requires
        row.tiled(),
        0 <= i < row.glyphs.len(),
    ensures
        row.glyphs[i].end <= row.end,
    decreases row.glyphs.len() - i,
{
    if i + 1 < row.glyphs.len() {
        glyph_ends_within(row, i + 1);
        assert(row.glyphs[i + 1].start == row.glyphs[i].end);
    } else {
        assert(row.glyphs.last() == row.glyphs[i]);
    }
}

proof fn cell_bounds(row: Row, i: int, col: int)
    requires
        row.tiled(),
        0 <= i,
    ensures
        row.before(i, col) <= row.after(i, col) <= row.end,
    decreases row.glyphs.len() - i,
{
    if i < row.glyphs.len() {
        glyph_ends_within(row, i);
        cell_bounds(row, i + 1, col);
    }
}

/// On every cell the boundary before it lies not behind the one after it, and
/// both lie in the text.
pub proof fn boundaries_are_in_order(l: Layout, row: int, col: int)
    requires
        l.rows.len() > 0 ==> l.paved(),
        0 <= row,
    ensures
        l.boundary_before(row, col) <= l.boundary_after(row, col) <= l.total,
{
    if row < l.rows.len() {
        cell_bounds(l.rows[row], 0, col);
        row_ends_within(l, row);
    }
}

proof fn owner_is_first(l: Layout, i: int, k: int, c: int)
    requires
        l.paved(),
        0 <= i <= k < l.rows.len(),
        0 <= c <= l.total,
        l.owns(k, c),
    ensures
        l.first_owner(i, c) == Some(k),
    decreases k - i,
{
    caret_has_one_row(l, c);
    if i < k {
        owner_is_first(l, i + 1, k, c);
    }
}

proof fn owner_found(l: Layout, i: int, c: int)
    requires
        0 <= i,
    ensures
        l.first_owner(i, c) matches Some(k) ==> i <= k < l.rows.len() && l.owns(k, c),
    decreases l.rows.len() - i,
{
    if i < l.rows.len() && !l.owns(i, c) {
        owner_found(l, i + 1, c);
    }
}

/// The start of the row that shows a caret is shown on that row.
pub proof fn row_start_stays_in_its_row(l: Layout, c: int)
    requires
        l.paved(),
        0 <= c <= l.total,
    ensures
        l.first_owner(0, c) matches Some(i) && 0 <= i < l.rows.len() && l.first_owner(
            0,
            l.rows[i].start,
        ) == Some(i),
{
    caret_has_one_row(l, c);
    let k = choose|k: int| 0 <= k < l.rows.len() && l.owns(k, c);
    owner_is_first(l, 0, k, c);
    let start = l.rows[k].start;
    row_ends_within(l, k);
    if k > 0 {
        rows_ascend(l, 0, k);
        assert(l.rows[0].start <= l.rows[0].end);
    }
    if k + 1 < l.rows.len() {
        assert(l.rows[k + 1].line == l.rows[k].line ==> start < l.rows[k].end);
    }
    assert(l.owns(k, start));
    owner_is_first(l, 0, k, start);
}

/// The row that shows a caret holds it, and lies within the text.
pub proof fn caret_row_holds_it(l: Layout, c: int)
    requires
        l.paved(),
        0 <= c <= l.total,
    ensures
        l.first_owner(0, c) matches Some(i) && 0 <= i < l.rows.len() && 0 <= l.rows[i].start <= c
            <= l.rows[i].end <= l.total,
{
    caret_has_one_row(l, c);
    let k = choose|k: int| 0 <= k < l.rows.len() && l.owns(k, c);
    owner_is_first(l, 0, k, c);
    row_ends_within(l, k);
    if k > 0 {
        rows_ascend(l, 0, k);
        assert(l.rows[0].start <= l.rows[0].end);
    }
}

/// The mirror of a text at a width, kept to be used again as long as both are
/// the same.
#[derive(Debug, PartialEq, Eq)]
pub struct Mirror {
    lines: Vec<String>,
    width: usize,
    map: LayoutMap,
}

impl Mirror {
    #[verifier::type_invariant]
    closed spec fn exact(self) -> bool {
        self.map@ == layout_of(text::views(self.lines@), self.width as int)
    }

    /// The layout it shows.
    pub closed spec fn shows(self) -> Layout {
        self.map@
    }

    pub fn new(lines: Vec<String>, width: usize) -> (r: Self)
        requires
            text::joined(text::views(lines@), seq!['\n']).len() <= usize::MAX,
        ensures
            r.shows() == layout_of(text::views(lines@), width as int),
    {
        let map = LayoutMap::new(&lines, width);
        Mirror { lines, width, map }
    }

    /// Whether it was made for these lines at this width. One made for others
    /// is stale.
    pub fn is_fresh(&self, lines: &Vec<String>, width: usize) -> (r: bool)
        ensures
            r ==> self.shows() == layout_of(text::views(lines@), width as int),
    {
        proof {
            use_type_invariant(self);
        }
        if self.width != width || self.lines.len() != lines.len() {
            return false;
        }
        let mut i: usize = 0;
        while i < lines.len()
            invariant
                i <= lines.len(),
                lines.len() == self.lines.len(),
                forall|k: int| 0 <= k < i ==> #[trigger] lines@[k]@ == self.lines@[k]@,
            decreases lines.len() - i,
        {
            if !same(lines[i].as_str(), self.lines[i].as_str()) {
                return false;
            }
            i += 1;
        }
        assert(text::views(lines@) == text::views(self.lines@));
        true
    }

    pub fn map(&self) -> (r: &LayoutMap)
        ensures
            r@ == self.shows(),
    {
        &self.map
    }
}

impl LayoutMap {
    /// The layout of `lines` wrapped at `width` cells.
    pub fn new(lines: &Vec<String>, width: usize) -> (r: Self)
        requires
            text::joined(text::views(lines@), seq!['\n']).len() <= usize::MAX,
        ensures
            r@ == layout_of(text::views(lines@), width as int),
            lines@.len() > 0 ==> r@.paved(),
            lines@.len() == 0 ==> r@.rows.len() == 0 && r@.total == 0,
    {
        let width: usize = if width < 1 {
            1
        } else {
            width
        };
        let ghost all = text::views(lines@);
        let ghost w = width as int;
        let mut rows: Vec<RowLayout> = Vec::new();
        let mut total: usize = 0;
        let mut i: usize = 0;
        assert(rows@.map_values(|r: RowLayout| r@) == screen_rows(all, 0, w));
        while i < lines.len()
            invariant
                i <= lines.len(),
                all == text::views(lines@),
                w == width,
                width >= 1,
                text::joined(all, seq!['\n']).len() <= usize::MAX,
                i < lines.len() ==> total == area::offset(all, i as int, 0),
                i == lines.len() ==> total == text::joined(all, seq!['\n']).len(),
                rows@.map_values(|r: RowLayout| r@) == screen_rows(all, i as int, w),
                0 < i < lines.len() ==> follow(screen_rows(all, i as int, w), total - 1),
                0 < i == lines.len() ==> follow(screen_rows(all, i as int, w), total as int),
                i > 0 ==> screen_rows(all, i as int, w).last().line == i - 1,
            decreases lines.len() - i,
        {
            let line = lines[i].as_str();
            proof {
                offset_in_joined(all, i as int, all[i as int].len() as int);
            }
            let count: usize = chars(line).len();
            let ghost before = rows@.map_values(|r: RowLayout| r@);
            let ghost gs = graphemes(line@);
            Self::wrap_line(&mut rows, line, i, width, total);
            assert(rows@.map_values(|r: RowLayout| r@) == before + line_rows(
                gs,
                w,
                i as int,
                total as int,
            ));
            proof {
                let new = line_rows(gs, w, i as int, total as int);
                if i == 0 {
                    assert(before + new == new);
                    run_follows(new, i as int, total as int, total + count);
                } else {
                    run_extends(before, new, total - 1, i as int, total + count);
                }
            }
            total += count;
            i += 1;
            if i < lines.len() {
                proof {
                    offset_in_joined(all, i as int, 0);
                    reveal_with_fuel(area::offset, 2);
                    offset_in_joined(all, i as int - 1, all[i as int - 1].len() as int);
                }
                total += 1;
            }
        }
        LayoutMap { rows, total_chars: total }
    }

    fn wrap_line(
        rows: &mut Vec<RowLayout>,
        line: &str,
        index: usize,
        width: usize,
        start: usize,
    )
        requires
            width >= 1,
            start + line@.len() <= usize::MAX,
        ensures
            final(rows)@.map_values(|r: RowLayout| r@) == old(rows)@.map_values(|r: RowLayout| r@)
                + line_rows(graphemes(line@), width as int, index as int, start as int),
            run(
                line_rows(graphemes(line@), width as int, index as int, start as int),
                index as int,
                start as int,
                start + line@.len(),
            ),
    {
        let gs = grapheme_list(line);
        let ghost gv = text::views(gs@);
        let ghost before = rows@.map_values(|r: RowLayout| r@);
        let ghost w = width as int;
        let ghost li = index as int;
        let ghost s = start as int;
        let count: usize = rows.len();
        let mut row_start: usize = start;
        let mut at: usize = start;
        let mut col: usize = 0;
        let mut glyphs: Vec<GraphemeLayout> = Vec::new();
        let mut k: usize = 0;
        assert(wrapped(gv, 0, w, li, s).rows == Seq::<Row>::empty());
        assert(before + Seq::<Row>::empty() == before);
        assert(glyphs@.map_values(|g: GraphemeLayout| g@) == Seq::<Glyph>::empty());
        while k < gs.len()
            invariant
                k <= gs.len(),
                gv == text::views(gs@),
                flat(gv) == line@,
                forall|i: int| 0 <= i < gv.len() ==> (#[trigger] gv[i]).len() > 0,
                w == width,
                li == index,
                s == start,
                width >= 1,
                start + line@.len() <= usize::MAX,
                count == before.len(),
                ({
                    let p = wrapped(gv, k as int, w, li, s);
                    &&& rows@.map_values(|r: RowLayout| r@) == before + p.rows
                    &&& row_start == p.start
                    &&& at == p.at
                    &&& col == p.col
                    &&& glyphs@.map_values(|g: GraphemeLayout| g@) == p.glyphs
                }),
            decreases gs.len() - k,
        {
            let ghost p = wrapped(gv, k as int, w, li, s);
            proof {
                wrapped_sound(gv, k as int, w, li, s);
                flat_prefix(gv, k as int);
                assert(gv[k as int] == gs@[k as int]@);
            }
            let g = gs[k].as_str();
            let n: usize = chars(g).len();
            let mut cells: usize = grapheme_width(g, col);
            let ghost mut q = p;
            if glyphs.len() > 0 && cells > width - col {
                assert(p.glyphs.len() == glyphs.len());
                Self::flush(rows, index, row_start, at, glyphs);
                glyphs = Vec::new();
                row_start = at;
                col = 0;
                cells = grapheme_width(g, col);
                proof {
                    q = p.flushed(li);
                }
                assert(glyphs@.map_values(|g: GraphemeLayout| g@) == q.glyphs);
                assert(rows@.map_values(|r: RowLayout| r@) == before + q.rows);
            } else {
                assert(p.glyphs.len() == glyphs.len());
            }
            let placed = GraphemeLayout {
                start_char: at,
                end_char: at + n,
                start_col: col,
                width: cells,
            };
            let ghost gl = glyphs@.map_values(|g: GraphemeLayout| g@);
            glyphs.push(placed);
            assert(glyphs@.map_values(|g: GraphemeLayout| g@) == gl.push(placed@));
            at += n;
            col = col + cells;
            let ghost next = Wrap {
                glyphs: q.glyphs.push(placed@),
                at: q.at + n,
                col: q.col + cells,
                ..q
            };
            if col > width {
                Self::flush(rows, index, row_start, at, glyphs);
                glyphs = Vec::new();
                row_start = at;
                col = 0;
                assert(glyphs@.map_values(|g: GraphemeLayout| g@) == Seq::<Glyph>::empty());
                assert(rows@.map_values(|r: RowLayout| r@) == before + next.flushed(li).rows);
            }
            k += 1;
            assert(wrapped(gv, k as int, w, li, s) == p.placed(gv[k - 1], w, li));
        }
        let ghost p = wrapped(gv, gv.len() as int, w, li, s);
        proof {
            wrapped_sound(gv, gv.len() as int, w, li, s);
            assert(gv.take(gv.len() as int) == gv);
            assert(run(line_rows(gv, w, li, s), li, s, s + line@.len()));
        }
        assert(glyphs@.len() == p.glyphs.len());
        assert(rows@.len() == before.len() + p.rows.len());
        if glyphs.len() > 0 || rows.len() == count {
            Self::flush(rows, index, row_start, at, glyphs);
            assert(rows@.map_values(|r: RowLayout| r@) == before + p.rows.push(p.row(li)));
        }
    }

    fn flush(
        rows: &mut Vec<RowLayout>,
        line: usize,
        start: usize,
        end: usize,
        graphemes: Vec<GraphemeLayout>,
    )
        ensures
            final(rows)@.map_values(|r: RowLayout| r@) == old(rows)@.map_values(
                |r: RowLayout| r@,
            ).push(
                Row {
                    line: line as int,
                    start: start as int,
                    end: end as int,
                    glyphs: graphemes@.map_values(|g: GraphemeLayout| g@),
                },
            ),
    {
        let ghost before = rows@.map_values(|r: RowLayout| r@);
        let row = RowLayout { line, start_char: start, end_char: end, graphemes };
        rows.push(row);
        assert(rows@.map_values(|r: RowLayout| r@) == before.push(row@));
    }

    /// Number of screen rows.
    pub fn row_count(&self) -> (r: usize)
        ensures
            r == self@.rows.len(),
    {
        self.rows.len()
    }

    /// The boundary before the grapheme on cell `(row, col)`, where a click
    /// inserts.
    pub fn screen_to_char(&self, row: usize, col: usize) -> (r: usize)
        ensures
            r == self@.boundary_before(row as int, col as int),
    {
        if row >= self.rows.len() {
            return self.total_chars;
        }
        let r = &self.rows[row];
        assert(self@.rows[row as int] == r@);
        let mut i: usize = 0;
        while i < r.graphemes.len()
            invariant
                i <= r.graphemes.len(),
                row < self.rows.len(),
                self@.rows[row as int] == r@,
                r@.before(0, col as int) == r@.before(i as int, col as int),
            decreases r.graphemes.len() - i,
        {
            let g = r.graphemes[i];
            assert(r@.glyphs[i as int] == g@);
            let w: usize = if g.width < 1 {
                1
            } else {
                g.width
            };
            if col >= g.start_col && col - g.start_col < w {
                if w > 1 && col - g.start_col >= w / 2 {
                    return g.end_char;
                }
                return g.start_char;
            }
            i += 1;
        }
        r.end_char
    }

    /// The boundary after the grapheme on cell `(row, col)`, the inclusive
    /// end of a drag over that cell.
    pub fn screen_to_char_end(&self, row: usize, col: usize) -> (r: usize)
        ensures
            r == self@.boundary_after(row as int, col as int),
    {
        if row >= self.rows.len() {
            return self.total_chars;
        }
        let r = &self.rows[row];
        assert(self@.rows[row as int] == r@);
        let mut i: usize = 0;
        while i < r.graphemes.len()
            invariant
                i <= r.graphemes.len(),
                row < self.rows.len(),
                self@.rows[row as int] == r@,
                r@.after(0, col as int) == r@.after(i as int, col as int),
            decreases r.graphemes.len() - i,
        {
            let g = r.graphemes[i];
            assert(r@.glyphs[i as int] == g@);
            let w: usize = if g.width < 1 {
                1
            } else {
                g.width
            };
            if col >= g.start_col && col - g.start_col < w {
                return g.end_char;
            }
            i += 1;
        }
        r.end_char
    }

    /// The row that shows the caret at offset `c`.
    pub fn row_at(&self, c: usize) -> (r: Option<usize>)
        ensures
            r matches Some(i) ==> i < self@.rows.len() && self@.first_owner(0, c as int) == Some(
                i as int,
            ),
            r is None ==> self@.first_owner(0, c as int) is None,
    {
        let mut i: usize = 0;
        while i < self.rows.len()
            invariant
                i <= self.rows.len(),
                self@.first_owner(0, c as int) == self@.first_owner(i as int, c as int),
            decreases self.rows.len() - i,
        {
            let row = &self.rows[i];
            assert(self@.rows[i as int] == row@);
            let last = if i + 1 < self.rows.len() {
                assert(self@.rows[i as int + 1] == self.rows@[i as int + 1]@);
                self.rows[i + 1].line != row.line
            } else {
                true
            };
            if row.start_char <= c && (c < row.end_char || (c == row.end_char && last)) {
                return Some(i);
            }
            i += 1;
        }
        None
    }
}

impl Glyph {
    /// Whether the glyph takes display column `col`; one without width takes
    /// its own.
    pub open spec fn covers(self, col: int) -> bool {
        self.col <= col < self.col + self.cells()
    }

    pub open spec fn cells(self) -> int {
        if self.width < 1 {
            1
        } else {
            self.width
        }
    }
}

impl Row {
    /// The graphemes of the row fill it, characters and cells.
    pub open spec fn tiled(self) -> bool {
        tiles(self.glyphs, self.start, self.end)
    }

    /// The boundary before the grapheme at display column `col`, looked for
    /// from glyph `i` on: the right half of a wide one is after it, and blank
    /// cells are at the row's end.
    pub open spec fn before(self, i: int, col: int) -> int
        decreases self.glyphs.len() - i,
    {
        if i >= self.glyphs.len() {
            self.end
        } else if self.glyphs[i].covers(col) {
            let w = self.glyphs[i].cells();
            if w > 1 && col >= self.glyphs[i].col + w / 2 {
                self.glyphs[i].end
            } else {
                self.glyphs[i].start
            }
        } else {
            self.before(i + 1, col)
        }
    }

    /// The boundary after the grapheme at display column `col`, looked for
    /// from glyph `i` on.
    pub open spec fn after(self, i: int, col: int) -> int
        decreases self.glyphs.len() - i,
    {
        if i >= self.glyphs.len() {
            self.end
        } else if self.glyphs[i].covers(col) {
            self.glyphs[i].end
        } else {
            self.after(i + 1, col)
        }
    }
}

impl Layout {
    /// Where a click on cell `(row, col)` puts the caret: rows beyond the
    /// text are at its end.
    pub open spec fn boundary_before(self, row: int, col: int) -> int {
        if row >= self.rows.len() {
            self.total
        } else {
            self.rows[row].before(0, col)
        }
    }

    /// Where a drag that ends on cell `(row, col)` ends.
    pub open spec fn boundary_after(self, row: int, col: int) -> int {
        if row >= self.rows.len() {
            self.total
        } else {
            self.rows[row].after(0, col)
        }
    }

    /// The rows lay out the whole text, from its start to its end.
    pub open spec fn paved(self) -> bool {
        follow(self.rows, self.total)
    }

    /// Whether row `i` shows the caret at offset `c`: the offset at a soft
    /// wrap belongs to the next row, a line's last row owns its end.
    pub open spec fn owns(self, i: int, c: int) -> bool {
        let row = self.rows[i];
        &&& row.start <= c
        &&& c < row.end || (c == row.end && (i + 1 >= self.rows.len() || self.rows[i + 1].line
            != row.line))
    }

    /// The first row from `i` on that shows the caret at offset `c`.
    pub open spec fn first_owner(self, i: int, c: int) -> Option<int>
        decreases self.rows.len() - i,
    {
        if i >= self.rows.len() {
            None
        } else if self.owns(i, c) {
            Some(i)
        } else {
            self.first_owner(i + 1, c)
        }
    }
}

} // verus!
