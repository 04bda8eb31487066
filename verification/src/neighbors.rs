//! The adjacency query: the cells that touch a position, in a fixed order.

use vstd::prelude::*;
use crate::cell::GridCell;
use crate::grid::{Grid, GridView};

verus! {

/// Whether `a` and `b` are distinct positions whose rows and columns differ by at most one.
pub open spec fn adjacent(a: (usize, usize), b: (usize, usize)) -> bool {
    &&& a != b
    &&& a.0 - b.0 <= 1 && b.0 - a.0 <= 1
    &&& a.1 - b.1 <= 1 && b.1 - a.1 <= 1
}

impl GridView {
    /// The cell `(rows, cols)` away from `position`, as a sequence of one cell,
    /// or of none where the grid has no cell there.
    pub open spec fn step(self, position: (usize, usize), rows: int, cols: int) -> Seq<GridCell> {
        let r = position.0 + rows;
        let c = position.1 + cols;
        if 0 <= r < self.height && 0 <= c < self.width {
            seq![self.cell_at((r as usize, c as usize))]
        } else {
            Seq::empty()
        }
    }

    /// The cells of the grid that touch `position`, sides and corners alike:
    /// below, right, below right, above, above right, left, below left, above left.
    pub open spec fn neighbors(self, position: (usize, usize)) -> Seq<GridCell> {
        self.step(position, 1, 0) + self.step(position, 0, 1) + self.step(position, 1, 1)
            + self.step(position, -1, 0) + self.step(position, -1, 1) + self.step(position, 0, -1)
            + self.step(position, 1, -1) + self.step(position, -1, -1)
    }

    /// `cell` is the grid's own cell at a position that touches `position`.
    pub open spec fn touches(self, position: (usize, usize), cell: GridCell) -> bool {
        &&& self.in_bounds(cell.position)
        &&& adjacent(cell.position, position)
        &&& cell == self.cell_at(cell.position)
    }

    /// How many of `index - 1`, `index`, `index + 1` lie in `[0, extent)`.
    pub open spec fn span(index: usize, extent: nat) -> int {
        (if index > 0 && index - 1 < extent { 1int } else { 0 })
            + (if index < extent { 1int } else { 0 })
            + (if index + 1 < extent { 1int } else { 0 })
    }
}

/// `index + delta` where that is a `usize`.
fn shifted(index: usize, delta: i8) -> (moved: Option<usize>)
    requires
        -1 <= delta <= 1,
    ensures
        moved == if 0 <= index + delta <= usize::MAX {
            Some((index + delta) as usize)
        } else {
            None
        },
{
    if delta == 0 {
        Some(index)
    } else if delta == 1 {
        if index < usize::MAX {
            Some(index + 1)
        } else {
            None
        }
    } else {
        if index > 0 {
            Some(index - 1)
        } else {
            None
        }
    }
}

impl Grid {
    /// Appends the cell `(rows, cols)` away from `position` to `found`, if the grid has one there.
    fn visit(&self, found: &mut Vec<GridCell>, position: (usize, usize), rows: i8, cols: i8)
        requires
            -1 <= rows <= 1,
            -1 <= cols <= 1,
        ensures
            final(found)@ == old(found)@ + self@.step(position, rows as int, cols as int),
    {
        if let Some(r) = shifted(position.0, rows) {
            if let Some(c) = shifted(position.1, cols) {
                if let Some(cell) = self.get((r, c)) {
                    found.push(cell);
                }
            }
        }
        proof {
            self.lemma_view_wf();
        }
    }

    /// The cells in the Moore neighbourhood of `position` that exist in the
    /// grid. Positions outside the grid are left out, so a corner has three
    /// neighbours, an edge five, and a cell inside eight. The order is fixed:
    /// below, right, below right, above, above right, left, below left, above
    /// left.
    pub fn neighbors(&self, position: (usize, usize)) -> (found: Vec<GridCell>)
        ensures
            found@ == self@.neighbors(position),
            forall|i: int| 0 <= i < found@.len() ==> self@.touches(position, #[trigger] found@[i]),
            self@.in_bounds(position) ==> found@.len() == GridView::span(position.0, self@.height)
                * GridView::span(position.1, self@.width) - 1,
    {
        let mut found: Vec<GridCell> = Vec::new();
        self.visit(&mut found, position, 1, 0);
        self.visit(&mut found, position, 0, 1);
        self.visit(&mut found, position, 1, 1);
        self.visit(&mut found, position, -1, 0);
        self.visit(&mut found, position, -1, 1);
        self.visit(&mut found, position, 0, -1);
        self.visit(&mut found, position, 1, -1);
        self.visit(&mut found, position, -1, -1);
        proof {
            self.lemma_view_wf();
            lemma_neighbors_touch(self@, position);
            if self@.in_bounds(position) {
                lemma_neighbors_count(self@, position);
            }
        }
        found
    }
}

/// A step other than the null step yields only cells that touch the position it starts from.
proof fn lemma_step_touches(grid: GridView, position: (usize, usize), rows: int, cols: int)
    requires
        grid.wf(),
        -1 <= rows <= 1,
        -1 <= cols <= 1,
        rows != 0 || cols != 0,
    ensures
        forall|i: int|
            0 <= i < grid.step(position, rows, cols).len() ==> grid.touches(
                position,
                #[trigger] grid.step(position, rows, cols)[i],
            ),
{
}

/// Every neighbour lies in the grid, touches the queried position, is not the
/// queried position itself, and is the cell that the grid holds there.
pub proof fn lemma_neighbors_touch(grid: GridView, position: (usize, usize))
    requires
        grid.wf(),
    ensures
        forall|i: int|
            0 <= i < grid.neighbors(position).len() ==> grid.touches(
                position,
                #[trigger] grid.neighbors(position)[i],
            ),
{
    lemma_step_touches(grid, position, 1, 0);
    lemma_step_touches(grid, position, 0, 1);
    lemma_step_touches(grid, position, 1, 1);
    lemma_step_touches(grid, position, -1, 0);
    lemma_step_touches(grid, position, -1, 1);
    lemma_step_touches(grid, position, 0, -1);
    lemma_step_touches(grid, position, 1, -1);
    lemma_step_touches(grid, position, -1, -1);
}

/// Every cell of the grid that touches `position` is among its neighbours.
pub proof fn lemma_neighbors_complete(grid: GridView, position: (usize, usize), other: (usize, usize))
    requires
        grid.wf(),
        grid.in_bounds(other),
        adjacent(other, position),
    ensures
        grid.neighbors(position).contains(grid.cell_at(other)),
{
    let rows = other.0 - position.0;
    let cols = other.1 - position.1;
    let all = grid.neighbors(position);
    let n0 = grid.step(position, 1, 0).len() as int;
    let n1 = grid.step(position, 0, 1).len() as int;
    let n2 = grid.step(position, 1, 1).len() as int;
    let n3 = grid.step(position, -1, 0).len() as int;
    let n4 = grid.step(position, -1, 1).len() as int;
    let n5 = grid.step(position, 0, -1).len() as int;
    let n6 = grid.step(position, 1, -1).len() as int;
    let before: int = if rows == 1 && cols == 0 {
        0
    } else if rows == 0 && cols == 1 {
        n0
    } else if rows == 1 && cols == 1 {
        n0 + n1
    } else if rows == -1 && cols == 0 {
        n0 + n1 + n2
    } else if rows == -1 && cols == 1 {
        n0 + n1 + n2 + n3
    } else if rows == 0 && cols == -1 {
        n0 + n1 + n2 + n3 + n4
    } else if rows == 1 && cols == -1 {
        n0 + n1 + n2 + n3 + n4 + n5
    } else {
        n0 + n1 + n2 + n3 + n4 + n5 + n6
    };
    assert(0 <= before < all.len() && all[before] == grid.cell_at(other));
}

/// The number of neighbours of a cell of the grid: the positions around it
/// that the grid has, row-wise times column-wise, less the cell itself. So a
/// cell inside has eight; where the grid has at least two rows and two
/// columns, a corner has three and a cell elsewhere on an edge has five.
pub proof fn lemma_neighbors_count(grid: GridView, position: (usize, usize))
    requires
        grid.wf(),
        grid.in_bounds(position),
    ensures
        grid.neighbors(position).len() == GridView::span(position.0, grid.height) * GridView::span(
            position.1,
            grid.width,
        ) - 1,
        0 < position.0 && position.0 + 1 < grid.height && 0 < position.1 && position.1 + 1
            < grid.width ==> grid.neighbors(position).len() == 8,
        grid.height >= 2 && grid.width >= 2 && (position.0 == 0 || position.0 + 1 == grid.height)
            && (position.1 == 0 || position.1 + 1 == grid.width) ==> grid.neighbors(
            position,
        ).len() == 3,
        grid.height >= 2 && grid.width >= 2 && ((position.0 == 0 || position.0 + 1 == grid.height)
            != (position.1 == 0 || position.1 + 1 == grid.width)) ==> grid.neighbors(
            position,
        ).len() == 5,
{
    let rows = GridView::span(position.0, grid.height);
    let cols = GridView::span(position.1, grid.width);
    assert(rows * cols == if rows == 1 {
        cols
    } else if rows == 2 {
        2 * cols
    } else {
        3 * cols
    }) by (nonlinear_arith)
        requires
            1 <= rows <= 3,
    ;
}

} // verus!
