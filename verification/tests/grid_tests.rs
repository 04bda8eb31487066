use playspace::cell::{CellKind, GridCell, GridError};
use playspace::grid::Grid;

fn cell(kind: CellKind, row: usize, col: usize) -> GridCell {
    GridCell { kind, position: (row, col) }
}

fn positions(cells: &[GridCell]) -> Vec<(usize, usize)> {
    cells.iter().map(|c| c.position).collect()
}

#[test]
fn new_grid_is_all_empty() {
    let grid = Grid::new(3, 4, 50);
    assert_eq!(grid.height(), 3);
    assert_eq!(grid.width(), 4);
    assert_eq!(grid.cell_size(), 50);
    for row in 0..3 {
        for col in 0..4 {
            assert_eq!(grid.get((row, col)), Some(cell(CellKind::Empty, row, col)));
        }
    }
}

#[test]
fn get_reports_the_position_asked_for() {
    let mut grid = Grid::new(4, 6, 10);
    assert_eq!(grid.set((3, 5), CellKind::Wall), Ok(()));
    assert_eq!(grid.get((3, 5)), Some(cell(CellKind::Wall, 3, 5)));
    assert_eq!(grid.get((3, 4)), Some(cell(CellKind::Empty, 3, 4)));
    assert_eq!(grid.get((0, 0)), Some(cell(CellKind::Empty, 0, 0)));
}

#[test]
fn get_outside_the_grid_is_none() {
    for (height, width) in [(0usize, 0usize), (1, 1), (3, 7), (5, 5), (8, 2), (0, 4), (4, 0)] {
        let grid = Grid::new(height, width, 1);
        assert_eq!(grid.get((height, 0)), None);
        assert_eq!(grid.get((0, width)), None);
        assert_eq!(grid.get((height, width)), None);
        assert_eq!(grid.get((height + 3, width + 9)), None);
        assert_eq!(grid.get((usize::MAX, 0)), None);
        assert_eq!(grid.get((0, usize::MAX)), None);
        assert_eq!(grid.get((usize::MAX, usize::MAX)), None);
        if height > 0 && width > 0 {
            assert!(grid.get((height - 1, width - 1)).is_some());
        }
    }
}

#[test]
fn set_overwrites_and_the_last_write_wins() {
    let mut grid = Grid::new(3, 3, 50);
    assert_eq!(grid.set((1, 1), CellKind::Wall), Ok(()));
    assert_eq!(grid.get((1, 1)), Some(cell(CellKind::Wall, 1, 1)));
    assert_eq!(grid.set((1, 1), CellKind::Occupant), Ok(()));
    assert_eq!(grid.get((1, 1)), Some(cell(CellKind::Occupant, 1, 1)));
    assert_eq!(grid.set((1, 1), CellKind::Empty), Ok(()));
    assert_eq!(grid.get((1, 1)), Some(cell(CellKind::Empty, 1, 1)));
}

#[test]
fn set_touches_no_other_cell() {
    let mut grid = Grid::new(3, 4, 50);
    assert_eq!(grid.set((2, 1), CellKind::Wall), Ok(()));
    for row in 0..3 {
        for col in 0..4 {
            let expected = if (row, col) == (2, 1) { CellKind::Wall } else { CellKind::Empty };
            assert_eq!(grid.get((row, col)), Some(cell(expected, row, col)));
        }
    }
}

#[test]
fn set_outside_the_grid_is_out_of_bounds() {
    let mut grid = Grid::new(3, 4, 50);
    let before = grid.clone();
    assert_eq!(grid.set((3, 0), CellKind::Wall), Err(GridError::OutOfBounds));
    assert_eq!(grid.set((0, 4), CellKind::Wall), Err(GridError::OutOfBounds));
    assert_eq!(grid.set((usize::MAX, usize::MAX), CellKind::Occupant), Err(GridError::OutOfBounds));
    assert_eq!(grid, before);
    let mut none = Grid::new(0, 0, 50);
    assert_eq!(none.set((0, 0), CellKind::Wall), Err(GridError::OutOfBounds));
}

#[test]
fn neighbors_of_a_corner_of_a_5x5_grid_are_three() {
    let grid = Grid::new(5, 5, 50);
    for corner in [(0usize, 0usize), (0, 4), (4, 0), (4, 4)] {
        let found = grid.neighbors(corner);
        assert_eq!(found.len(), 3);
        for n in &found {
            assert!(n.position.0 < 5 && n.position.1 < 5);
            assert_ne!(n.position, corner);
        }
    }
}

#[test]
fn neighbors_of_an_edge_cell_of_a_5x5_grid_are_five() {
    let grid = Grid::new(5, 5, 50);
    for edge in [(0usize, 2usize), (2, 0), (4, 1), (3, 4), (0, 1), (1, 4)] {
        let found = grid.neighbors(edge);
        assert_eq!(found.len(), 5);
        for n in &found {
            assert!(n.position.0 < 5 && n.position.1 < 5);
            assert_ne!(n.position, edge);
        }
    }
}

#[test]
fn neighbors_of_an_interior_cell_of_a_5x5_grid_are_eight() {
    let grid = Grid::new(5, 5, 50);
    for row in 1..4usize {
        for col in 1..4usize {
            let found = grid.neighbors((row, col));
            assert_eq!(found.len(), 8);
            for n in &found {
                assert!(n.position.0 < 5 && n.position.1 < 5);
                assert_ne!(n.position, (row, col));
                assert!(n.position.0.abs_diff(row) <= 1 && n.position.1.abs_diff(col) <= 1);
            }
        }
    }
}

#[test]
fn neighbors_come_in_a_fixed_order() {
    let grid = Grid::new(5, 5, 50);
    assert_eq!(
        positions(&grid.neighbors((2, 2))),
        vec![(3, 2), (2, 3), (3, 3), (1, 2), (1, 3), (2, 1), (3, 1), (1, 1)]
    );
    assert_eq!(positions(&grid.neighbors((0, 0))), vec![(1, 0), (0, 1), (1, 1)]);
    assert_eq!(positions(&grid.neighbors((4, 4))), vec![(3, 4), (4, 3), (3, 3)]);
    assert_eq!(positions(&grid.neighbors((0, 2))), vec![(1, 2), (0, 3), (1, 3), (0, 1), (1, 1)]);
    assert_eq!(positions(&grid.neighbors((2, 4))), vec![(3, 4), (1, 4), (2, 3), (3, 3), (1, 3)]);
}

#[test]
fn neighbors_are_the_same_on_every_call() {
    let mut grid = Grid::new(4, 4, 50);
    assert_eq!(grid.set((1, 2), CellKind::Wall), Ok(()));
    let first = grid.neighbors((1, 1));
    let second = grid.neighbors((1, 1));
    assert_eq!(first, second);
}

#[test]
fn neighbors_carry_the_kinds_stored_in_the_grid() {
    let mut grid = Grid::new(3, 3, 50);
    assert_eq!(grid.set((0, 1), CellKind::Wall), Ok(()));
    assert_eq!(grid.set((1, 1), CellKind::Occupant), Ok(()));
    assert_eq!(
        grid.neighbors((0, 0)),
        vec![cell(CellKind::Empty, 1, 0), cell(CellKind::Wall, 0, 1), cell(CellKind::Occupant, 1, 1)]
    );
}

#[test]
fn neighbors_of_a_position_outside_are_the_cells_that_touch_it() {
    let grid = Grid::new(5, 5, 50);
    assert_eq!(positions(&grid.neighbors((5, 0))), vec![(4, 0), (4, 1)]);
    assert_eq!(positions(&grid.neighbors((5, 5))), vec![(4, 4)]);
    assert_eq!(positions(&grid.neighbors((2, 5))), vec![(2, 4), (3, 4), (1, 4)]);
    assert_eq!(positions(&grid.neighbors((7, 7))), vec![]);
    assert_eq!(positions(&grid.neighbors((usize::MAX, usize::MAX))), vec![]);
    assert_eq!(positions(&grid.neighbors((usize::MAX, 0))), vec![]);
}

#[test]
fn neighbors_in_narrow_grids() {
    let single = Grid::new(1, 1, 50);
    assert_eq!(single.neighbors((0, 0)), vec![]);
    let strip = Grid::new(1, 4, 50);
    assert_eq!(positions(&strip.neighbors((0, 0))), vec![(0, 1)]);
    assert_eq!(positions(&strip.neighbors((0, 2))), vec![(0, 3), (0, 1)]);
    let pair = Grid::new(2, 2, 50);
    assert_eq!(positions(&pair.neighbors((1, 1))), vec![(0, 1), (1, 0), (0, 0)]);
}

#[test]
fn cells_are_listed_row_by_row() {
    let mut grid = Grid::new(2, 3, 50);
    assert_eq!(grid.set((0, 1), CellKind::Wall), Ok(()));
    assert_eq!(grid.set((1, 2), CellKind::Occupant), Ok(()));
    assert_eq!(
        grid.cells(),
        vec![
            ((0, 0), CellKind::Empty),
            ((0, 1), CellKind::Wall),
            ((0, 2), CellKind::Empty),
            ((1, 0), CellKind::Empty),
            ((1, 1), CellKind::Empty),
            ((1, 2), CellKind::Occupant),
        ]
    );
}

#[test]
fn cells_of_an_empty_grid_are_none() {
    assert_eq!(Grid::new(0, 0, 50).cells(), vec![]);
    assert_eq!(Grid::new(0, 5, 50).cells(), vec![]);
    assert_eq!(Grid::new(5, 0, 50).cells(), vec![]);
}

#[test]
fn cells_agree_with_get() {
    let mut grid = Grid::new(4, 5, 50);
    assert_eq!(grid.set((3, 4), CellKind::Wall), Ok(()));
    assert_eq!(grid.set((2, 0), CellKind::Occupant), Ok(()));
    let listed = grid.cells();
    assert_eq!(listed.len(), 20);
    for (i, (position, kind)) in listed.iter().enumerate() {
        assert_eq!(*position, (i / 5, i % 5));
        assert_eq!(grid.get(*position), Some(GridCell { kind: *kind, position: *position }));
    }
}

#[test]
fn kinds_have_their_symbols() {
    assert_eq!(CellKind::Wall.symbol(), 'W');
    assert_eq!(CellKind::Occupant.symbol(), 'P');
    assert_eq!(CellKind::Empty.symbol(), '0');
}

#[test]
fn locate_finds_the_first_cell_of_a_kind() {
    let mut grid = Grid::new(3, 4, 50);
    assert_eq!(grid.locate(CellKind::Empty), Some((0, 0)));
    assert_eq!(grid.locate(CellKind::Wall), None);
    assert_eq!(grid.locate(CellKind::Occupant), None);
    assert_eq!(grid.set((2, 1), CellKind::Wall), Ok(()));
    assert_eq!(grid.set((1, 3), CellKind::Wall), Ok(()));
    assert_eq!(grid.set((0, 0), CellKind::Occupant), Ok(()));
    assert_eq!(grid.locate(CellKind::Wall), Some((1, 3)));
    assert_eq!(grid.locate(CellKind::Occupant), Some((0, 0)));
    assert_eq!(grid.locate(CellKind::Empty), Some((0, 1)));
    assert_eq!(Grid::new(0, 0, 50).locate(CellKind::Empty), None);
}

#[test]
fn clone_is_equal_and_independent() {
    let mut grid = Grid::new(3, 4, 50);
    assert_eq!(grid.set((2, 1), CellKind::Wall), Ok(()));
    let copy = grid.clone();
    assert_eq!(copy, grid);
    assert_eq!(copy.cells(), grid.cells());
    assert_eq!(grid.set((0, 0), CellKind::Occupant), Ok(()));
    assert_ne!(copy, grid);
    assert_eq!(copy.get((0, 0)), Some(GridCell { kind: CellKind::Empty, position: (0, 0) }));
}

#[test]
fn neighbors_are_as_many_as_the_grid_has_around_a_cell() {
    for height in 1..6usize {
        for width in 1..6usize {
            let grid = Grid::new(height, width, 50);
            for row in 0..height {
                for col in 0..width {
                    let rows = 1 + usize::from(row > 0) + usize::from(row + 1 < height);
                    let cols = 1 + usize::from(col > 0) + usize::from(col + 1 < width);
                    let found = grid.neighbors((row, col));
                    assert_eq!(found.len(), rows * cols - 1);
                    for (i, n) in found.iter().enumerate() {
                        assert_eq!(grid.get(n.position), Some(*n));
                        assert!(!found[i + 1..].contains(n));
                    }
                }
            }
        }
    }
}
