use life2d::presets::{apply, random_cell};
use life2d::{get, Presets};

fn cross(w: u32, h: u32) -> Vec<bool> {
    (0..w * h).map(|i| i % w == w / 2 || i / w == h / 2).collect()
}

#[test]
fn trait_object_generators_match_apply() {
    for preset in [Presets::Empty, Presets::Invert, Presets::Grid, Presets::Cross, Presets::X] {
        let mut a: Vec<bool> = (0..35).map(|i| i % 4 == 0).collect();
        let mut b = a.clone();
        get(preset).make(&mut a, 7, 5, false);
        apply(preset, &mut b, 7, 5, false);
        assert_eq!(a, b, "{preset:?}");
    }
}

#[test]
fn cross_replaces_without_overlay() {
    let mut buf = vec![true; 12];
    get(Presets::Cross).make(&mut buf, 4, 3, false);
    assert_eq!(buf, cross(4, 3));
}

#[test]
fn cross_or_ed_with_overlay() {
    let mut buf = vec![false; 12];
    buf[0] = true;
    apply(Presets::Cross, &mut buf, 4, 3, true);
    let mut expected = cross(4, 3);
    expected[0] = true;
    assert_eq!(buf, expected);
}

#[test]
fn cross_on_odd_grid_uses_integer_middle() {
    let mut buf = vec![false; 15];
    apply(Presets::Cross, &mut buf, 5, 3, false);
    let alive: Vec<usize> = buf.iter().enumerate().filter(|(_, c)| **c).map(|(i, _)| i).collect();
    // Column 2 and row 1.
    assert_eq!(alive, vec![2, 5, 6, 7, 8, 9, 12]);
}

#[test]
fn square_diagonal_cross() {
    // offset 0: x == y or x == 4 - y.
    let mut buf = vec![false; 16];
    apply(Presets::X, &mut buf, 4, 4, false);
    let alive: Vec<usize> = buf.iter().enumerate().filter(|(_, c)| **c).map(|(i, _)| i).collect();
    assert_eq!(alive, vec![0, 5, 7, 10, 13, 15]);
}

#[test]
fn random_without_overlay_ignores_old_cells_statistically() {
    let mut buf = vec![true; 6000];
    apply(Presets::Random, &mut buf, 100, 60, false);
    let n = buf.iter().filter(|c| **c).count();
    assert!(n > 600 && n < 1400, "{n}");
}

#[test]
fn empty_buffer_is_left_empty() {
    let mut buf: Vec<bool> = Vec::new();
    apply(Presets::Invert, &mut buf, 3, 0, false);
    assert!(buf.is_empty());
}

#[test]
fn random_cell_keeps_overlaid_cells_and_takes_the_draw() {
    assert!(!random_cell(false, false, false));
    assert!(random_cell(false, false, true));
    assert!(!random_cell(true, false, false));
    assert!(random_cell(true, false, true));
    assert!(!random_cell(false, true, false));
    assert!(random_cell(false, true, true));
    assert!(random_cell(true, true, false));
    assert!(random_cell(true, true, true));
}
