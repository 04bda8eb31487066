//! From grid positions to world coordinates. The grid is centred on the
//! origin; row 0 is at the top, so a larger row means a smaller `y`.
//!
//! The centre of a cell lies on a whole world unit or half way between two,
//! so a point is held in halves of a unit and every coordinate is exact.

use vstd::prelude::*;

verus! {

/// A point of the world, counted in halves of a world unit: the point
/// `(twice_x / 2, twice_y / 2)`.
#[derive(Clone, Copy, Debug, PartialEq, Eq, Structural)]
pub struct WorldPoint {
    pub twice_x: i128,
    pub twice_y: i128,
}

/// Twice the world `x` of column `col`, where `x` is
/// `(cell_size - grid_width * cell_size) / 2 + col * cell_size`.
pub open spec fn twice_world_x(col: int, cell_size: int, grid_width: int) -> int {
    (cell_size - grid_width * cell_size) + 2 * (col * cell_size)
}

/// Twice the world `y` of row `row`, where `y` is
/// `(grid_height * cell_size - cell_size) / 2 - row * cell_size`.
pub open spec fn twice_world_y(row: int, cell_size: int, grid_height: int) -> int {
    (grid_height * cell_size - cell_size) - 2 * (row * cell_size)
}

/// The product of a `usize` and a `u32` lies far inside `i128`.
proof fn lemma_product_fits(a: int, b: int)
    requires
        0 <= a <= usize::MAX,
        0 <= b <= u32::MAX,
    ensures
        0 <= a * b <= 0x1_0000_0000_0000_0000_0000_0000,
{
    assert(0 <= a * b <= 0x1_0000_0000_0000_0000 * 0x1_0000_0000) by (nonlinear_arith)
        requires
            0 <= a <= 0x1_0000_0000_0000_0000,
            0 <= b <= 0x1_0000_0000,
    ;
}

/// The world coordinates of the centre of the cell at `position`, which need
/// not lie inside the grid. The result is exact for every position, cell size
/// and grid.
pub fn map(position: (usize, usize), cell_size: u32, grid_width: usize, grid_height: usize) -> (point:
    WorldPoint)
    requires
        grid_width >= 1,
        grid_height >= 1,
    ensures
        point.twice_x == twice_world_x(position.1 as int, cell_size as int, grid_width as int),
        point.twice_y == twice_world_y(position.0 as int, cell_size as int, grid_height as int),
        point.twice_x + twice_world_x(
            grid_width - 1 - position.1,
            cell_size as int,
            grid_width as int,
        ) == 0,
        point.twice_y + twice_world_y(
            grid_height - 1 - position.0,
            cell_size as int,
            grid_height as int,
        ) == 0,
{
    proof {
        lemma_map_centered(
            position.0 as int,
            position.1 as int,
            cell_size as int,
            grid_width as int,
            grid_height as int,
        );
        lemma_product_fits(grid_width as int, cell_size as int);
        lemma_product_fits(grid_height as int, cell_size as int);
        lemma_product_fits(position.0 as int, cell_size as int);
        lemma_product_fits(position.1 as int, cell_size as int);
    }
    let size = cell_size as i128;
    WorldPoint {
        twice_x: (size - grid_width as i128 * size) + 2 * (position.1 as i128 * size),
        twice_y: (grid_height as i128 * size - size) - 2 * (position.0 as i128 * size),
    }
}

impl WorldPoint {
    /// The point in whole world units, where both coordinates are whole.
    pub fn whole(&self) -> (units: Option<(i128, i128)>)
        ensures
            units is Some <==> self.twice_x % 2 == 0 && self.twice_y % 2 == 0,
            units matches Some(point) ==> 2 * point.0 == self.twice_x && 2 * point.1 == self.twice_y,
    {
        if self.twice_x % 2 == 0 && self.twice_y % 2 == 0 {
            Some((self.twice_x / 2, self.twice_y / 2))
        } else {
            None
        }
    }
}

/// The grid is centred on the origin: a column and the column opposite to it
/// have opposite `x`, a row and the row opposite to it have opposite `y`. So
/// the first and the last cell of a grid map to opposite points, whatever the
/// dimensions and the cell size.
pub proof fn lemma_map_centered(row: int, col: int, cell_size: int, grid_width: int, grid_height: int)
    ensures
        twice_world_x(col, cell_size, grid_width) + twice_world_x(
            grid_width - 1 - col,
            cell_size,
            grid_width,
        ) == 0,
        twice_world_y(row, cell_size, grid_height) + twice_world_y(
            grid_height - 1 - row,
            cell_size,
            grid_height,
        ) == 0,
{
    assert((grid_width - 1 - col) * cell_size == grid_width * cell_size - cell_size - col * cell_size)
        by (nonlinear_arith);
    assert((grid_height - 1 - row) * cell_size == grid_height * cell_size - cell_size - row
        * cell_size) by (nonlinear_arith);
}

/// One column to the right adds `cell_size` to `x`, and one row down takes
/// `cell_size` from `y`.
pub proof fn lemma_map_step(row: int, col: int, cell_size: int, grid_width: int, grid_height: int)
    ensures
        twice_world_x(col + 1, cell_size, grid_width) == twice_world_x(col, cell_size, grid_width) + 2
            * cell_size,
        twice_world_y(row + 1, cell_size, grid_height) == twice_world_y(row, cell_size, grid_height)
            - 2 * cell_size,
{
    assert((col + 1) * cell_size == col * cell_size + cell_size) by (nonlinear_arith);
    assert((row + 1) * cell_size == row * cell_size + cell_size) by (nonlinear_arith);
}

/// Where the extent between the centres of the outermost cells is even in
/// both directions, every cell's centre lies on whole world units.
pub proof fn lemma_map_whole(row: int, col: int, cell_size: int, grid_width: int, grid_height: int)
    requires
        (grid_width * cell_size - cell_size) % 2 == 0,
        (grid_height * cell_size - cell_size) % 2 == 0,
    ensures
        twice_world_x(col, cell_size, grid_width) % 2 == 0,
        twice_world_y(row, cell_size, grid_height) % 2 == 0,
        twice_world_x(col, cell_size, grid_width) / 2 == col * cell_size - (grid_width * cell_size
            - cell_size) / 2,
        twice_world_y(row, cell_size, grid_height) / 2 == (grid_height * cell_size - cell_size) / 2
            - row * cell_size,
{
}

/// The `(height, width)` in cells of the grid that fills a window: each
/// window dimension divided by the side of a cell, which has to divide both.
pub fn grid_dimensions(window_width: u32, window_height: u32, cell_size: u32) -> (cells: (usize, usize))
    requires
        cell_size > 0,
        window_width % cell_size == 0,
        window_height % cell_size == 0,
    ensures
        cells.0 == window_height / cell_size,
        cells.1 == window_width / cell_size,
        cells.0 * cell_size == window_height,
        cells.1 * cell_size == window_width,
{
    proof {
        vstd::arithmetic::div_mod::lemma_fundamental_div_mod(window_width as int, cell_size as int);
        vstd::arithmetic::div_mod::lemma_fundamental_div_mod(window_height as int, cell_size as int);
        assert(cell_size * (window_width as int / cell_size as int) == (window_width as int
            / cell_size as int) * cell_size) by (nonlinear_arith);
        assert(cell_size * (window_height as int / cell_size as int) == (window_height as int
            / cell_size as int) * cell_size) by (nonlinear_arith);
    }
    ((window_height / cell_size) as usize, (window_width / cell_size) as usize)
}

} // verus!
