use life::grid::Grid;
use life::step::compute_next;

/// Builds a `width` x `height` board that is dead everywhere except at the
/// listed `(row, col)` coordinates.
fn board(width: usize, height: usize, alive: &[(usize, usize)]) -> Grid {
    let mut g = Grid::dead(width, height);
    for &(r, c) in alive {
        g.set(r, c, true);
    }
    g
}

/// Runs one generation and returns the freshly computed board.
fn step(current: &Grid) -> Grid {
    let mut next = Grid::dead(current.width, current.height);
    compute_next(current, &mut next);
    next
}

#[test]
fn determinism_repeated_step() {
    let g = board(9, 7, &[(1, 1), (2, 2), (2, 3), (3, 1), (6, 8), (0, 0), (5, 4)]);
    let a = step(&g);
    let b = step(&g);
    let c = step(&g);
    assert_eq!(a, b);
    assert_eq!(b, c);
}

#[test]
fn toroidal_diagonal_wrap() {
    // The dead cell (0,0) sees (h-1, w-1) diagonally across both edges, and
    // (h-1, 0) and (h-1, 1) across the top edge: exactly 3 live neighbors,
    // so it is born. Without the wrap it would see none.
    let g = board(5, 4, &[(3, 4), (3, 0), (3, 1)]);
    let n = step(&g);
    assert!(n.get(0, 0));
}

#[test]
fn toroidal_horizontal_wrap() {
    // The live cell (0, w-1) sees (0, 0) across the vertical edge and
    // (1, w-1) below: exactly 2 live neighbors, so it survives. Without the
    // wrap it would have 1 and die.
    let g = board(5, 4, &[(0, 4), (0, 0), (1, 4)]);
    let n = step(&g);
    assert!(n.get(0, 4));
}

#[test]
fn isolated_cell_dies() {
    let g = board(9, 9, &[(4, 4)]);
    let n = step(&g);
    for r in 0..9 {
        for c in 0..9 {
            assert!(!n.get(r, c));
        }
    }
}

#[test]
fn live_cell_with_two_neighbors_survives() {
    let g = board(9, 9, &[(4, 3), (4, 4), (4, 5)]);
    let n = step(&g);
    assert!(n.get(4, 4));
}

#[test]
fn live_cell_with_three_neighbors_survives() {
    let g = board(9, 9, &[(4, 4), (3, 3), (3, 4), (3, 5)]);
    let n = step(&g);
    assert!(n.get(4, 4));
}

#[test]
fn live_cell_with_one_neighbor_dies() {
    let g = board(9, 9, &[(4, 4), (4, 5)]);
    let n = step(&g);
    assert!(!n.get(4, 4));
    assert!(!n.get(4, 5));
}

#[test]
fn live_cell_with_four_neighbors_dies() {
    let g = board(9, 9, &[(4, 4), (3, 3), (3, 5), (5, 3), (5, 5)]);
    let n = step(&g);
    assert!(!n.get(4, 4));
}

#[test]
fn dead_cell_with_three_neighbors_is_born() {
    let g = board(9, 9, &[(3, 4), (4, 3), (4, 5)]);
    let n = step(&g);
    assert!(n.get(4, 4));
}

#[test]
fn dead_cell_with_other_counts_stays_dead() {
    // Exactly 2 live neighbors: no birth.
    let two = board(9, 9, &[(4, 3), (4, 5)]);
    assert!(!step(&two).get(4, 4));
    // Exactly 4 live neighbors: no birth.
    let four = board(9, 9, &[(3, 3), (3, 5), (5, 3), (5, 5)]);
    assert!(!step(&four).get(4, 4));
}

#[test]
fn blinker_turns_vertical() {
    // A horizontal triple at (5,4),(5,5),(5,6) becomes a vertical triple at
    // (4,5),(5,5),(6,5); every other cell of the board is dead.
    let g = board(12, 12, &[(5, 4), (5, 5), (5, 6)]);
    let n = step(&g);
    for r in 0..12 {
        for c in 0..12 {
            let expected = (r, c) == (4, 5) || (r, c) == (5, 5) || (r, c) == (6, 5);
            assert_eq!(n.get(r, c), expected);
        }
    }
}

#[test]
fn all_dead_board_stays_dead() {
    let g = Grid::dead(6, 5);
    let n = step(&g);
    assert_eq!(n, Grid::dead(6, 5));
}

#[test]
fn one_by_one_board_collapses_neighbors_onto_itself() {
    // On a 1x1 torus all eight neighbor coordinates wrap back to the cell
    // itself: a live cell counts 8 live neighbors and dies, a dead cell
    // counts 0 and stays dead.
    let alive = board(1, 1, &[(0, 0)]);
    assert!(!step(&alive).get(0, 0));
    let dead = Grid::dead(1, 1);
    assert!(!step(&dead).get(0, 0));
}
