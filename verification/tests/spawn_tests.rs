use sph_gl::spawn::{SpawnGrid, SpawnPoint, CELL, JITTER_SPAN, SPACING_X};

#[test]
fn initial_grid_dimensions() {
    let g = SpawnGrid::initial();
    assert_eq!(g, SpawnGrid { origin_x: 0, origin_y: 0, cols_end: 50, rows_end: 56 });
    assert_eq!(g.capacity(), 49 * 55);
}

#[test]
fn burst_grid_dimensions() {
    let g = SpawnGrid::burst(300, -40);
    assert_eq!(g, SpawnGrid { origin_x: 300, origin_y: -40, cols_end: 16, rows_end: 56 });
    assert_eq!(g.capacity(), 15 * 55);
}

#[test]
fn spawn_point_row_major() {
    let g = SpawnGrid::initial();
    assert_eq!(g.spawn_point(0, 3), SpawnPoint { base_x: 14, base_y: 16, jitter: 3 });
    assert_eq!(g.spawn_point(1, 0), SpawnPoint { base_x: 28, base_y: 16, jitter: 0 });
    assert_eq!(g.spawn_point(48, 9), SpawnPoint { base_x: 49 * 14, base_y: 16, jitter: 9 });
    // The 50th particle wraps to the second row.
    assert_eq!(g.spawn_point(49, 5), SpawnPoint { base_x: 14, base_y: 32, jitter: 5 });
    assert_eq!(g.spawn_point(49 * 55 - 1, 1), SpawnPoint { base_x: 49 * 14, base_y: 55 * 16, jitter: 1 });
}

#[test]
fn spawn_point_burst_offsets() {
    let g = SpawnGrid::burst(100, 200);
    assert_eq!(g.spawn_point(0, 0), SpawnPoint { base_x: 100 + SPACING_X, base_y: 200 + CELL, jitter: 0 });
    assert_eq!(g.spawn_point(15, 7), SpawnPoint { base_x: 114, base_y: 232, jitter: 7 });
    assert_eq!(g.spawn_point(99, 2), SpawnPoint { base_x: 100 + 10 * 14, base_y: 200 + 7 * 16, jitter: 2 });
}

#[test]
fn fits_edges() {
    assert!(SpawnGrid::initial().fits(10000));
    assert!(SpawnGrid::burst(i32::MAX - 210, i32::MAX - 112).fits(100));
    assert!(!SpawnGrid::burst(i32::MAX - 209, 0).fits(100));
    assert!(!SpawnGrid::burst(0, i32::MAX - 111).fits(100));
    // Fewer particles use fewer columns and rows.
    assert!(SpawnGrid::burst(i32::MAX - 14, i32::MAX - 16).fits(1));
    assert!(SpawnGrid::burst(i32::MAX, i32::MAX).fits(0));
    assert!(SpawnGrid::burst(i32::MIN, i32::MIN).fits(100));
}

#[test]
fn burst_cells_are_distinct() {
    let g = SpawnGrid::burst(0, 0);
    let cap = g.capacity();
    let mut seen = std::collections::HashSet::new();
    for k in 0..cap {
        let p = g.spawn_point(k, 0);
        assert!(seen.insert((p.base_x, p.base_y)));
        assert!(p.base_x >= SPACING_X && p.base_x < 16 * SPACING_X);
        assert!(p.base_y >= CELL && p.base_y < 56 * CELL);
    }
    assert_eq!(seen.len(), 825);
    assert!(JITTER_SPAN == 10);
}
