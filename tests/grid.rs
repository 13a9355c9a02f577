use life2d::{Grid, GridError, Presets};

fn grid(w: u32, h: u32) -> Grid {
    Grid::new(w, h).unwrap()
}

fn set(g: &mut Grid, cells: &[(i32, i32)]) {
    for &p in cells {
        g.set_state(p, true, false);
    }
}

fn alive(g: &Grid) -> Vec<(u32, u32)> {
    let w = g.width() as usize;
    g.cells()
        .iter()
        .enumerate()
        .filter(|(_, c)| **c)
        .map(|(i, _)| ((i % w) as u32, (i / w) as u32))
        .collect()
}

fn is_alive(g: &Grid, x: u32, y: u32) -> bool {
    g.cells()[(y * g.width() + x) as usize]
}

#[test]
fn zero_width_or_height_is_rejected() {
    assert_eq!(Grid::new(0, 5).err(), Some(GridError::EmptyDimension));
    assert_eq!(Grid::new(5, 0).err(), Some(GridError::EmptyDimension));
    assert_eq!(Grid::new(0, 0).err(), Some(GridError::EmptyDimension));
}

#[test]
fn new_grid_is_dead_with_defaults() {
    let g = grid(7, 3);
    assert_eq!(g.width(), 7);
    assert_eq!(g.height(), 3);
    assert_eq!(g.cells().len(), 21);
    assert!(alive(&g).is_empty());
    assert!(!g.overlay());
    assert_eq!(g.rules().index(), 0);
}

#[test]
fn lone_cell_dies() {
    let mut g = grid(3, 3);
    set(&mut g, &[(1, 1)]);
    g.step();
    assert!(alive(&g).is_empty());
}

#[test]
fn block_is_still_life() {
    let mut g = grid(4, 4);
    set(&mut g, &[(1, 1), (2, 1), (1, 2), (2, 2)]);
    g.step();
    assert_eq!(alive(&g), vec![(1, 1), (2, 1), (1, 2), (2, 2)]);
    g.step();
    assert_eq!(alive(&g), vec![(1, 1), (2, 1), (1, 2), (2, 2)]);
}

#[test]
fn corner_counts_cell_across_both_edges() {
    // Replicator: a dead cell with exactly one live neighbour is born.
    let mut g = grid(3, 3);
    g.next_rule();
    g.next_rule();
    assert_eq!(g.rules().name(), "Replicator");
    set(&mut g, &[(0, 0)]);
    g.step();
    assert!(is_alive(&g, 2, 2));
}

#[test]
fn birth_from_neighbours_across_edges() {
    let mut g = grid(5, 5);
    set(&mut g, &[(0, 0), (4, 0), (0, 4)]);
    g.step();
    // (4, 4) sees all three only through wraparound.
    assert!(is_alive(&g, 4, 4));
}

#[test]
fn blinker_oscillates_across_the_edge() {
    let mut g = grid(5, 5);
    set(&mut g, &[(4, 2), (0, 2), (1, 2)]);
    g.step();
    assert_eq!(alive(&g), vec![(0, 1), (0, 2), (0, 3)]);
    g.step();
    assert_eq!(alive(&g), vec![(0, 2), (1, 2), (4, 2)]);
}

#[test]
fn equal_grids_step_alike() {
    let mut a = grid(8, 6);
    let mut b = grid(8, 6);
    let cells = [(1, 0), (2, 1), (0, 2), (1, 2), (2, 2), (7, 5), (6, 5)];
    set(&mut a, &cells);
    set(&mut b, &cells);
    for _ in 0..5 {
        a.step();
        b.step();
        assert_eq!(a.cells(), b.cells());
    }
}

#[test]
fn glider_moves_one_cell_diagonally_in_four_steps() {
    let mut g = grid(8, 8);
    set(&mut g, &[(1, 0), (2, 1), (0, 2), (1, 2), (2, 2)]);
    for _ in 0..4 {
        g.step();
    }
    assert_eq!(alive(&g), vec![(2, 1), (3, 2), (1, 3), (2, 3), (3, 3)]);
}

#[test]
fn cross_pattern_on_ten_by_ten() {
    let mut g = grid(10, 10);
    set(&mut g, &[(0, 0)]);
    g.preset(Presets::Cross);
    for y in 0..10 {
        for x in 0..10 {
            assert_eq!(is_alive(&g, x, y), x == 5 || y == 5, "({x}, {y})");
        }
    }
}

#[test]
fn overlay_keeps_live_cells() {
    let mut g = grid(10, 10);
    set(&mut g, &[(0, 0), (9, 9)]);
    g.toggle_overlay();
    assert!(g.overlay());
    g.preset(Presets::Cross);
    for y in 0..10 {
        for x in 0..10 {
            let before = (x, y) == (0, 0) || (x, y) == (9, 9);
            assert_eq!(is_alive(&g, x, y), before || x == 5 || y == 5, "({x}, {y})");
        }
    }
}

#[test]
fn empty_clears_without_overlay_and_keeps_with_it() {
    let mut g = grid(4, 4);
    set(&mut g, &[(1, 1), (2, 3)]);
    g.toggle_overlay();
    g.preset(Presets::Empty);
    assert_eq!(alive(&g), vec![(1, 1), (2, 3)]);
    g.toggle_overlay();
    g.preset(Presets::Empty);
    assert!(alive(&g).is_empty());
}

#[test]
fn invert_flips_every_cell_whatever_the_overlay() {
    let mut g = grid(3, 2);
    set(&mut g, &[(0, 0), (2, 1)]);
    g.toggle_overlay();
    g.preset(Presets::Invert);
    assert_eq!(alive(&g), vec![(1, 0), (2, 0), (0, 1), (1, 1)]);
}

#[test]
fn lattice_pattern() {
    let mut g = grid(7, 7);
    g.preset(Presets::Grid);
    for y in 0..7 {
        for x in 0..7 {
            assert_eq!(is_alive(&g, x, y), x % 3 != 0 && y % 3 != 0, "({x}, {y})");
        }
    }
}

#[test]
fn diagonal_cross_on_wide_grid() {
    // offset = (8 - 4) / 2 = 2: x - 2 == y or x - 2 == 4 - y.
    let mut g = grid(8, 4);
    g.preset(Presets::X);
    assert_eq!(
        alive(&g),
        vec![(2, 0), (6, 0), (3, 1), (5, 1), (4, 2), (3, 3), (5, 3)]
    );
}

#[test]
fn diagonal_cross_on_tall_grid() {
    // offset = -((6 - 3) / 2) = -1: x + 1 == y or x + 1 == 6 - y.
    let mut g = grid(3, 6);
    g.preset(Presets::X);
    assert_eq!(alive(&g), vec![(0, 1), (1, 2), (2, 3), (1, 4), (0, 5)]);
}

#[test]
fn random_with_overlay_keeps_live_cells() {
    let mut g = grid(20, 20);
    set(&mut g, &[(3, 4), (19, 19)]);
    g.toggle_overlay();
    g.preset(Presets::Random);
    assert!(is_alive(&g, 3, 4));
    assert!(is_alive(&g, 19, 19));
}

#[test]
fn random_density_is_about_one_in_six() {
    let mut g = grid(200, 200);
    g.preset(Presets::Random);
    let n = alive(&g).len();
    assert!(n > 40_000 / 6 - 1_000 && n < 40_000 / 6 + 1_000, "{n}");
}

#[test]
fn symmetric_point_sets_four_cells() {
    let mut g = grid(10, 10);
    g.draw_line((1, 1), (1, 1), true, true);
    assert_eq!(alive(&g), vec![(1, 1), (9, 1), (1, 9), (9, 9)]);
}

#[test]
fn symmetric_point_at_centre_sets_one_cell() {
    let mut g = grid(10, 10);
    g.draw_line((5, 5), (5, 5), true, true);
    assert_eq!(alive(&g), vec![(5, 5)]);
}

#[test]
fn plain_point_sets_one_cell() {
    let mut g = grid(10, 10);
    g.draw_line((1, 1), (1, 1), true, false);
    assert_eq!(alive(&g), vec![(1, 1)]);
}

#[test]
fn line_covers_every_cell_between_ends() {
    let mut g = grid(10, 10);
    g.draw_line((1, 2), (6, 2), true, false);
    assert_eq!(alive(&g), vec![(1, 2), (2, 2), (3, 2), (4, 2), (5, 2), (6, 2)]);
    let mut d = grid(10, 10);
    d.draw_line((0, 0), (3, 3), true, false);
    assert_eq!(alive(&d), vec![(0, 0), (1, 1), (2, 2), (3, 3)]);
}

#[test]
fn erasing_stroke_sets_cells_dead() {
    let mut g = grid(6, 6);
    g.preset(Presets::Invert);
    g.draw_line((0, 3), (5, 3), false, false);
    for x in 0..6 {
        assert!(!is_alive(&g, x, 3));
        assert!(is_alive(&g, x, 2));
    }
}

#[test]
fn positions_outside_the_buffer_are_dropped() {
    let mut g = grid(4, 4);
    g.set_state((-1, -1), true, false);
    g.set_state((2, 4), true, false);
    g.set_state((0, 100), true, false);
    assert!(alive(&g).is_empty());
    // Symmetric images of (0, 0) on a 4x4 grid: (4, 0) lands on the next row's
    // first cell, (0, 4) and (4, 4) fall outside the buffer.
    g.set_state((0, 0), true, true);
    assert_eq!(alive(&g), vec![(0, 0), (0, 1)]);
}

#[test]
fn draw_points_sets_each_point() {
    let mut g = grid(5, 5);
    g.draw_points(&vec![(0, 0), (4, 4), (2, 3)], true, false);
    assert_eq!(alive(&g), vec![(0, 0), (2, 3), (4, 4)]);
}

#[test]
fn render_is_inverted_grayscale_in_row_order() {
    let mut g = grid(3, 2);
    set(&mut g, &[(1, 0), (2, 1)]);
    assert_eq!(g.render(1), vec![255, 0, 255, 255, 255, 0]);
    let rgb = g.render(3);
    assert_eq!(rgb.len(), 18);
    assert_eq!(&rgb[0..6], &[255, 255, 255, 0, 0, 0]);
    assert_eq!(&rgb[15..18], &[0, 0, 0]);
    assert!(g.render(0).is_empty());
}

#[test]
fn render_round_trip() {
    let mut g = grid(9, 7);
    g.preset(Presets::Random);
    for dims in 1..=4usize {
        let bytes = g.render(dims);
        let back: Vec<bool> = bytes.chunks(dims).map(|px| px[0] == 0).collect();
        assert_eq!(&back, g.cells());
    }
}

#[test]
fn step_uses_active_rule() {
    let mut g = grid(5, 5);
    g.prev_rule();
    g.prev_rule();
    g.prev_rule();
    assert_eq!(g.rules().name(), "No Death");
    set(&mut g, &[(2, 2)]);
    g.step();
    assert_eq!(alive(&g), vec![(2, 2)]);
    g.reset_rules();
    g.step();
    assert!(alive(&g).is_empty());
}

#[test]
fn far_away_stroke_draws_nothing() {
    let mut g = grid(4, 4);
    g.draw_line((-1_000_000_000, 2), (-1_000_000_000, 2), true, true);
    g.draw_line((i32::MAX, i32::MIN), (i32::MAX, i32::MIN), true, true);
    assert!(alive(&g).is_empty());
}

#[test]
fn line_crossing_the_edge_keeps_in_buffer_positions() {
    // Positions 4 + x for x in -5..=6: those from 0 to 10 lie in the buffer.
    let mut g = grid(4, 4);
    g.draw_line((-5, 1), (6, 1), true, false);
    let expected: Vec<(u32, u32)> = (0..=10u32).map(|i| (i % 4, i / 4)).collect();
    assert_eq!(alive(&g), expected);
}

#[test]
fn dimensions_are_positive() {
    let g = grid(1, 1);
    assert!(g.width() > 0 && g.height() > 0);
}
