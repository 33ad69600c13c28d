use moshya_viewer::grid::{
    clamp_cells, grid_segments, Point, Ratio, Segment, MAX_CELLS, MIN_CELLS, STROKE_WIDTH,
};

fn fraction(r: Ratio) -> f32 {
    r.num as f32 / r.den as f32
}

fn is_vertical(s: &Segment) -> bool {
    s.start.x == s.end.x && fraction(s.start.y) == 0.0 && fraction(s.end.y) == 1.0
}

fn is_horizontal(s: &Segment) -> bool {
    s.start.y == s.end.y && fraction(s.start.x) == 0.0 && fraction(s.end.x) == 1.0
}

const ZERO: Ratio = Ratio { num: 0, den: 1 };
const ONE: Ratio = Ratio { num: 1, den: 1 };

fn outline() -> Vec<Segment> {
    vec![
        Segment { start: Point { x: ZERO, y: ZERO }, end: Point { x: ONE, y: ZERO } },
        Segment { start: Point { x: ONE, y: ZERO }, end: Point { x: ONE, y: ONE } },
        Segment { start: Point { x: ONE, y: ONE }, end: Point { x: ZERO, y: ONE } },
        Segment { start: Point { x: ZERO, y: ONE }, end: Point { x: ZERO, y: ZERO } },
    ]
}

#[test]
fn four_columns_give_three_vertical_lines_at_quarters() {
    let segments = grid_segments(4, 1);
    assert_eq!(segments.len(), 7);
    let interior = &segments[4..];
    assert!(interior.iter().all(is_vertical));
    let positions: Vec<f32> = interior.iter().map(|s| fraction(s.start.x)).collect();
    assert_eq!(positions, vec![0.25, 0.5, 0.75]);
}

#[test]
fn one_column_gives_no_vertical_line() {
    let segments = grid_segments(1, 3);
    assert_eq!(segments.len(), 6);
    assert!(!segments[4..].iter().any(is_vertical));
    assert_eq!(&segments[..4], outline().as_slice());
}

#[test]
fn single_cell_grid_is_the_outline_alone() {
    let segments = grid_segments(1, 1);
    assert_eq!(segments.len(), 4);
    assert_eq!(segments, outline());
}

#[test]
fn outline_runs_around_the_rectangle() {
    let segments = grid_segments(3, 3);
    let border = &segments[..4];
    for k in 0..4 {
        assert_eq!(border[k].end, border[(k + 1) % 4].start);
    }
    assert_eq!(border[0].start, Point { x: ZERO, y: ZERO });
    assert_eq!(border[1].start, Point { x: ONE, y: ZERO });
    assert_eq!(border[2].start, Point { x: ONE, y: ONE });
    assert_eq!(border[3].start, Point { x: ZERO, y: ONE });
}

#[test]
fn three_rows_give_two_horizontal_lines_at_thirds() {
    let segments = grid_segments(1, 3);
    let interior = &segments[4..];
    assert_eq!(interior.len(), 2);
    assert!(interior.iter().all(is_horizontal));
    assert_eq!(interior[0].start.y, Ratio { num: 1, den: 3 });
    assert_eq!(interior[1].start.y, Ratio { num: 2, den: 3 });
}

#[test]
fn vertical_lines_come_before_horizontal_lines() {
    let segments = grid_segments(4, 4);
    assert_eq!(segments.len(), 10);
    assert!(segments[4..7].iter().all(is_vertical));
    assert!(segments[7..10].iter().all(is_horizontal));
    assert_eq!(
        segments[4],
        Segment {
            start: Point { x: Ratio { num: 1, den: 4 }, y: ZERO },
            end: Point { x: Ratio { num: 1, den: 4 }, y: ONE },
        }
    );
    assert_eq!(
        segments[9],
        Segment {
            start: Point { x: ZERO, y: Ratio { num: 3, den: 4 } },
            end: Point { x: ONE, y: Ratio { num: 3, den: 4 } },
        }
    );
}

#[test]
fn segment_count_is_outline_plus_interior_lines() {
    for cols in MIN_CELLS..=MAX_CELLS {
        for rows in [1, 2, 7, 50] {
            let segments = grid_segments(cols, rows);
            assert_eq!(segments.len() as u32, 4 + (cols - 1) + (rows - 1));
        }
    }
}

#[test]
fn interior_lines_are_evenly_spaced_inside_the_rectangle() {
    for cells in MIN_CELLS..=MAX_CELLS {
        let segments = grid_segments(cells, cells);
        let verticals = &segments[4..4 + (cells as usize - 1)];
        let horizontals = &segments[4 + (cells as usize - 1)..];
        assert_eq!(verticals.len(), horizontals.len());
        for (k, (v, h)) in verticals.iter().zip(horizontals).enumerate() {
            let at = Ratio { num: k as u32 + 1, den: cells };
            assert_eq!(v.start.x, at);
            assert_eq!(v.end.x, at);
            assert_eq!(h.start.y, at);
            assert_eq!(h.end.y, at);
            assert!(0.0 < fraction(at) && fraction(at) < 1.0);
        }
    }
}

#[test]
fn largest_grid_has_102_strokes() {
    assert_eq!(grid_segments(50, 50).len(), 102);
}

#[test]
fn cell_counts_are_clamped_to_the_range() {
    assert_eq!(clamp_cells(0), 1);
    assert_eq!(clamp_cells(1), 1);
    assert_eq!(clamp_cells(4), 4);
    assert_eq!(clamp_cells(50), 50);
    assert_eq!(clamp_cells(51), 50);
    assert_eq!(clamp_cells(u32::MAX), 50);
}

#[test]
fn strokes_are_one_pixel_wide() {
    assert_eq!(STROKE_WIDTH, 1);
}
