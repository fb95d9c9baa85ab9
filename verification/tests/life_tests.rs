use charwall::life::Life;

#[test]
fn new_grid_is_zero_size() {
    let g = Life::new(5);
    assert_eq!(g.width(), 0);
    assert_eq!(g.height(), 0);
}

#[test]
fn resize_gives_downscaled_dimensions() {
    let mut g = Life::new(5);
    g.set_size(100, 60);
    assert_eq!(g.width(), 20);
    assert_eq!(g.height(), 12);
    for y in 0..12 {
        for x in 0..20 {
            assert!(!g.cell(x, y));
        }
    }
}

#[test]
fn resize_twice_same_size_resets_dead() {
    let mut g = Life::new(1);
    g.set_size(8, 8);
    g.set_cell(1, 1, true);
    g.set_cell(7, 7, true);
    g.set_size(8, 8);
    assert_eq!(g.width(), 8);
    assert_eq!(g.height(), 8);
    for y in 0..8 {
        for x in 0..8 {
            assert!(!g.cell(x, y));
        }
    }
}

#[test]
fn step_preserves_dimensions() {
    for w in 1..=5u32 {
        for h in 1..=5u32 {
            let mut g = Life::new(1);
            g.set_size(w, h);
            g.init_rnd();
            g.update();
            assert_eq!(g.width(), w);
            assert_eq!(g.height(), h);
        }
    }
}

#[test]
fn zero_size_step_is_noop() {
    let mut g = Life::new(3);
    g.update();
    assert_eq!(g.width(), 0);
    assert_eq!(g.height(), 0);
}

// The neighbor offsets wrap the flat buffer as one line, not as a torus.
// For the 4x4 pattern {0, 1, 3} the linear rule gives exactly {0, 4}; a
// geometrically correct toroidal rule would also revive cell 12.
#[test]
fn step_4x4_follows_linear_wraparound() {
    let mut g = Life::new(1);
    g.set_size(4, 4);
    g.set_cell(0, 0, true);
    g.set_cell(1, 0, true);
    g.set_cell(3, 0, true);
    g.update();
    let expected_alive = [(0u32, 0u32), (0, 1)];
    for y in 0..4 {
        for x in 0..4 {
            let want = expected_alive.contains(&(x, y));
            assert_eq!(g.cell(x, y), want, "cell ({}, {})", x, y);
        }
    }
    // the toroidal rule would make (0, 3) alive; the linear one must not
    assert!(!g.cell(0, 3));
}

#[test]
fn step_4x4_block_is_stable() {
    let mut g = Life::new(1);
    g.set_size(4, 4);
    for (x, y) in [(1u32, 1u32), (2, 1), (1, 2), (2, 2)] {
        g.set_cell(x, y, true);
    }
    g.update();
    for y in 0..4 {
        for x in 0..4 {
            let want = (1..=2).contains(&x) && (1..=2).contains(&y);
            assert_eq!(g.cell(x, y), want, "cell ({}, {})", x, y);
        }
    }
}

#[test]
fn step_1x1_lone_cell_dies() {
    // on a one-cell ring the cell is its own neighbor eight times over
    let mut g = Life::new(1);
    g.set_size(1, 1);
    g.set_cell(0, 0, true);
    g.update();
    assert!(!g.cell(0, 0));
}

#[test]
fn init_rnd_keeps_dimensions() {
    let mut g = Life::new(2);
    g.set_size(64, 48);
    g.init_rnd();
    assert_eq!(g.width(), 32);
    assert_eq!(g.height(), 24);
}

#[test]
fn vertex_batch_of_empty_grid_is_empty() {
    let mut g = Life::new(1);
    g.set_size(3, 3);
    assert!(g.vertex_batch().is_empty());
}

#[test]
fn vertex_batch_one_live_cell() {
    let mut g = Life::new(1);
    g.set_size(2, 2);
    g.set_cell(1, 0, true);
    let batch = g.vertex_batch();
    assert_eq!(batch, vec![(1, -1), (3, -1), (1, 1), (3, -1), (1, 1), (3, 1)]);
}

#[test]
fn vertex_batch_is_row_major() {
    let mut g = Life::new(1);
    g.set_size(2, 2);
    g.set_cell(0, 0, true);
    g.set_cell(1, 1, true);
    let batch = g.vertex_batch();
    let mut expected = vec![(-1, -1), (1, -1), (-1, 1), (1, -1), (-1, 1), (1, 1)];
    expected.extend_from_slice(&[(1, 1), (3, 1), (1, 3), (3, 1), (1, 3), (3, 3)]);
    assert_eq!(batch, expected);
}
