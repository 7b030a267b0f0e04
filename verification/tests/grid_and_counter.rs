use digital_rain::counter::CharacterCounter;
use digital_rain::grid::Grid;

#[test]
fn recompute_800_by_600() {
    let g = Grid::recompute(800, 600);
    assert_eq!(g.window_width, 800);
    assert_eq!(g.window_height, 600);
    // cell dimension is 800/60 pixels, so 600 / (800/60) = 45 rows
    assert_eq!(g.rows, 45);
}

#[test]
fn recompute_is_pure() {
    let a = Grid::recompute(1024, 768);
    let b = Grid::recompute(1024, 768);
    assert_eq!(a, b);
    assert_eq!(a.rows, 45);
}

#[test]
fn recompute_doubled_width_halves_rows() {
    let narrow = Grid::recompute(800, 600);
    let wide = Grid::recompute(1600, 600);
    // cell dimension doubles, so the same height holds half as many rows
    assert_eq!(narrow.rows, 45);
    assert_eq!(wide.rows, 22);
}

#[test]
fn recompute_square_cells_exact() {
    // width 60 gives cells of exactly one pixel: one row per pixel of height
    let g = Grid::recompute(60, 60);
    assert_eq!(g.rows, 60);
}

#[test]
fn recompute_saturates_row_count() {
    // a degenerate one-pixel-wide window would need more rows than fit in u16
    let g = Grid::recompute(1, 2000);
    assert_eq!(g.rows, u16::MAX);
}

#[test]
fn counter_stops_at_cap() {
    let mut c = CharacterCounter::new(2);
    assert_eq!(c.count, 0);
    c.increment();
    c.increment();
    assert_eq!(c.count, 2);
    c.increment();
    assert_eq!(c.count, 2);
    assert_eq!(c.max, 2);
}

#[test]
fn counter_stops_at_zero() {
    let mut c = CharacterCounter::new(2);
    c.increment();
    c.decrement();
    assert_eq!(c.count, 0);
    c.decrement();
    assert_eq!(c.count, 0);
}

#[test]
fn counter_mixed_sequence_stays_bounded() {
    let mut c = CharacterCounter::new(3);
    let ups_and_downs = [
        true, true, true, true, true, false, false, false, false, false, true, false, true, true,
    ];
    for op in ups_and_downs {
        if op {
            c.increment();
        } else {
            c.decrement();
        }
        assert!(c.count <= 3);
    }
    assert_eq!(c.count, 2);
}

#[test]
fn counter_reset_zeroes() {
    let mut c = CharacterCounter::new(750);
    c.increment();
    c.increment();
    c.reset();
    assert_eq!(c.count, 0);
    assert_eq!(c.max, 750);
}
