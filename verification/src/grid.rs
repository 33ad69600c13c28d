//! The measurement grid: cell counts and the line segments of the overlay.
//!
//! Segments are given in the coordinates of the image rectangle: a coordinate `num / den`
//! stands for the point that far along from the rectangle's left (or top) edge to its right
//! (or bottom) edge. Whoever paints them scales them to the rectangle on screen.

use vstd::prelude::*;

verus! {

/// Fewest cells along an axis: one cell, which leaves only the outline.
pub const MIN_CELLS: u32 = 1;

/// Most cells along an axis.
pub const MAX_CELLS: u32 = 50;

/// Width of every grid stroke in pixels.
pub const STROKE_WIDTH: u32 = 1;

/// Whether a cell count lies in the accepted range.
pub open spec fn valid_cells(n: u32) -> bool {
    MIN_CELLS <= n <= MAX_CELLS
}

/// The accepted cell count nearest to `n`.
pub open spec fn clamped_cells(n: u32) -> u32 {
    if n < MIN_CELLS {
        MIN_CELLS
    } else if n > MAX_CELLS {
        MAX_CELLS
    } else {
        n
    }
}

/// Brings a cell count into the accepted range.
pub fn clamp_cells(n: u32) -> (c: u32)
    ensures
        c == clamped_cells(n),
        valid_cells(c),
        valid_cells(n) ==> c == n,
{
    if n < MIN_CELLS {
        MIN_CELLS
    } else if n > MAX_CELLS {
        MAX_CELLS
    } else {
        n
    }
}

/// A position along one side of the rectangle, as the fraction `num / den` of its length.
#[derive(Clone, Copy, Debug, PartialEq, Eq, Structural)]
pub struct Ratio {
    pub num: u32,
    pub den: u32,
}

/// A point of the rectangle; `(0, 0)` is its top left corner, `(1, 1)` its bottom right.
#[derive(Clone, Copy, Debug, PartialEq, Eq, Structural)]
pub struct Point {
    pub x: Ratio,
    pub y: Ratio,
}

/// A straight stroke between two points.
#[derive(Clone, Copy, Debug, PartialEq, Eq, Structural)]
pub struct Segment {
    pub start: Point,
    pub end: Point,
}

impl Ratio {
    /// Whether this is a fraction between zero and one, both included.
    pub open spec fn proper(self) -> bool {
        1 <= self.den && self.num <= self.den
    }
}

impl Segment {
    /// Whether both ends lie in the rectangle.
    pub open spec fn inside(self) -> bool {
        &&& self.start.x.proper()
        &&& self.start.y.proper()
        &&& self.end.x.proper()
        &&& self.end.y.proper()
    }
}

/// The near edge: the fraction zero.
pub open spec fn near() -> Ratio {
    Ratio { num: 0, den: 1 }
}

/// The far edge: the fraction one.
pub open spec fn far() -> Ratio {
    Ratio { num: 1, den: 1 }
}

/// The fraction `index / cells`.
pub open spec fn step(index: int, cells: int) -> Ratio {
    Ratio { num: index as u32, den: cells as u32 }
}

/// The stroke from `(x0, y0)` to `(x1, y1)`.
pub open spec fn stroke(x0: Ratio, y0: Ratio, x1: Ratio, y1: Ratio) -> Segment {
    Segment { start: Point { x: x0, y: y0 }, end: Point { x: x1, y: y1 } }
}

/// The four sides of the rectangle: top, right, bottom, left, each starting where the one
/// before it ended.
pub open spec fn outline() -> Seq<Segment> {
    seq![
        stroke(near(), near(), far(), near()),
        stroke(far(), near(), far(), far()),
        stroke(far(), far(), near(), far()),
        stroke(near(), far(), near(), near()),
    ]
}

/// The vertical line between column `index - 1` and column `index`, top to bottom.
pub open spec fn column_line(index: int, cols: int) -> Segment {
    stroke(step(index, cols), near(), step(index, cols), far())
}

/// The horizontal line between row `index - 1` and row `index`, left to right.
pub open spec fn row_line(index: int, rows: int) -> Segment {
    stroke(near(), step(index, rows), far(), step(index, rows))
}

/// The interior vertical lines of a grid of `cols` columns, left to right.
pub open spec fn column_lines(cols: u32) -> Seq<Segment> {
    Seq::new((cols - 1) as nat, |k: int| column_line(k + 1, cols as int))
}

/// The interior horizontal lines of a grid of `rows` rows, top to bottom.
pub open spec fn row_lines(rows: u32) -> Seq<Segment> {
    Seq::new((rows - 1) as nat, |k: int| row_line(k + 1, rows as int))
}

/// Every stroke of the overlay, in painting order: the outline, then the interior vertical
/// lines, then the interior horizontal lines.
pub open spec fn grid_lines(cols: u32, rows: u32) -> Seq<Segment> {
    outline() + column_lines(cols) + row_lines(rows)
}

/// The strokes of a grid of `cols` by `rows` cells.
pub fn grid_segments(cols: u32, rows: u32) -> (segments: Vec<Segment>)
    requires
        valid_cells(cols),
        valid_cells(rows),
    ensures
        segments@ == grid_lines(cols, rows),
        segments@.len() == 4 + (cols - 1) + (rows - 1),
        forall|k: int| 0 <= k < segments@.len() ==> (#[trigger] segments@[k]).inside(),
{
    let zero = Ratio { num: 0, den: 1 };
    let one = Ratio { num: 1, den: 1 };
    let mut segments: Vec<Segment> = Vec::new();
    segments.push(Segment { start: Point { x: zero, y: zero }, end: Point { x: one, y: zero } });
    segments.push(Segment { start: Point { x: one, y: zero }, end: Point { x: one, y: one } });
    segments.push(Segment { start: Point { x: one, y: one }, end: Point { x: zero, y: one } });
    segments.push(Segment { start: Point { x: zero, y: one }, end: Point { x: zero, y: zero } });
    assert(segments@ == outline());
    let mut i: u32 = 1;
    while i < cols
        invariant
            1 <= i <= cols,
            zero == near(),
            one == far(),
            segments@ == outline() + column_lines(cols).take(i - 1),
        decreases cols - i,
    {
        let at = Ratio { num: i, den: cols };
        segments.push(Segment { start: Point { x: at, y: zero }, end: Point { x: at, y: one } });
        assert(column_lines(cols).take(i as int) == column_lines(cols).take(i - 1).push(
            column_line(i as int, cols as int),
        ));
        i += 1;
    }
    assert(column_lines(cols).take(cols - 1) == column_lines(cols));
    let mut j: u32 = 1;
    while j < rows
        invariant
            1 <= j <= rows,
            zero == near(),
            one == far(),
            segments@ == outline() + column_lines(cols) + row_lines(rows).take(j - 1),
        decreases rows - j,
    {
        let at = Ratio { num: j, den: rows };
        segments.push(Segment { start: Point { x: zero, y: at }, end: Point { x: one, y: at } });
        assert(row_lines(rows).take(j as int) == row_lines(rows).take(j - 1).push(
            row_line(j as int, rows as int),
        ));
        j += 1;
    }
    assert(row_lines(rows).take(rows - 1) == row_lines(rows));
    proof {
        lemma_lines_inside(cols, rows);
    }
    segments
}

/// Every stroke of a grid stays within the rectangle.
pub proof fn lemma_lines_inside(cols: u32, rows: u32)
    requires
        valid_cells(cols),
        valid_cells(rows),
    ensures
        grid_lines(cols, rows).len() == 4 + (cols - 1) + (rows - 1),
        forall|k: int|
            0 <= k < grid_lines(cols, rows).len() ==> (#[trigger] grid_lines(cols, rows)[k]).inside(),
{
    let lines = grid_lines(cols, rows);
    assert forall|k: int| 0 <= k < lines.len() implies (#[trigger] lines[k]).inside() by {
        if k < 4 {
            assert(lines[k] == outline()[k]);
        } else if k < 4 + (cols - 1) {
            assert(lines[k] == column_lines(cols)[k - 4]);
        } else {
            assert(lines[k] == row_lines(rows)[k - 4 - (cols - 1)]);
        }
    }
}

/// A grid of one cell is its outline alone.
pub proof fn lemma_single_cell_is_outline()
    ensures
        grid_lines(1, 1) == outline(),
{
    assert(column_lines(1) == Seq::<Segment>::empty());
    assert(row_lines(1) == Seq::<Segment>::empty());
}

/// The interior lines of an axis lie strictly inside the rectangle, each one cell further
/// along than the line before it, and the last one cell short of the far edge.
pub proof fn lemma_lines_evenly_spaced(cells: u32)
    requires
        valid_cells(cells),
    ensures
        column_lines(cells).len() == cells - 1,
        row_lines(cells).len() == cells - 1,
        forall|k: int|
            0 <= k < cells - 1 ==> {
                let at = #[trigger] column_lines(cells)[k].start.x;
                &&& at == column_lines(cells)[k].end.x
                &&& at == row_lines(cells)[k].start.y
                &&& at == row_lines(cells)[k].end.y
                &&& at.den == cells
                &&& at.num == k + 1
                &&& 0 < at.num < at.den
            },
{
}

} // verus!
