//! The playspace matrix: a rectangle of cells with bounds-checked access.

use vstd::prelude::*;
use vstd::arithmetic::div_mod::lemma_fundamental_div_mod_converse;
use crate::cell::{CellKind, GridCell, GridError};

verus! {

/// The mathematical content of a grid: its dimensions, the size of a cell in
/// world units, and the kind of every cell, row by row.
#[verifier::ext_equal]
pub struct GridView {
    pub height: nat,
    pub width: nat,
    pub cell_size: nat,
    pub kinds: Seq<Seq<CellKind>>,
}

impl GridView {
    /// There are `height` rows of `width` kinds each, and both dimensions are
    /// such as a machine can hold.
    pub open spec fn wf(self) -> bool {
        &&& self.height <= usize::MAX
        &&& self.width <= usize::MAX
        &&& self.kinds.len() == self.height
        &&& forall|r: int| 0 <= r < self.height ==> (#[trigger] self.kinds[r]).len() == self.width
    }

    /// Whether `position` names a cell of the grid.
    pub open spec fn in_bounds(self, position: (usize, usize)) -> bool {
        position.0 < self.height && position.1 < self.width
    }

    /// The kind stored at `position`.
    pub open spec fn kind_at(self, position: (usize, usize)) -> CellKind {
        self.kinds[position.0 as int][position.1 as int]
    }

    /// The cell stored at `position`: a cell always reports the place where it lies.
    pub open spec fn cell_at(self, position: (usize, usize)) -> GridCell {
        GridCell { kind: self.kind_at(position), position }
    }

    /// The grid of the given dimensions in which every cell is `Empty`.
    pub open spec fn blank(height: nat, width: nat, cell_size: nat) -> GridView {
        GridView {
            height,
            width,
            cell_size,
            kinds: Seq::new(height, |r: int| Seq::new(width, |c: int| CellKind::Empty)),
        }
    }

    /// Every position of the grid with the kind stored there, row after row
    /// from the top, each row from left to right.
    pub open spec fn row_major(self) -> Seq<((usize, usize), CellKind)> {
        Seq::new(
            self.height * self.width,
            |i: int|
                {
                    let position = ((i / self.width as int) as usize, (i % self.width as int) as usize);
                    (position, self.kind_at(position))
                },
        )
    }

    /// Whether `first` comes before `second` in row-major order.
    pub open spec fn precedes(first: (usize, usize), second: (usize, usize)) -> bool {
        first.0 < second.0 || (first.0 == second.0 && first.1 < second.1)
    }

    /// This grid with the cell at `position` rewritten to `kind`.
    pub open spec fn with_kind(self, position: (usize, usize), kind: CellKind) -> GridView {
        GridView {
            kinds: self.kinds.update(
                position.0 as int,
                self.kinds[position.0 as int].update(position.1 as int, kind),
            ),
            ..self
        }
    }
}

/// Overwrites the slot that `cell` names as its own position; no other slot changes.
fn store(cells: &mut Vec<Vec<GridCell>>, cell: GridCell)
    requires
        cell.position.0 < old(cells)@.len(),
        cell.position.1 < old(cells)@[cell.position.0 as int]@.len(),
    ensures
        final(cells)@.len() == old(cells)@.len(),
        forall|r: int|
            0 <= r < old(cells)@.len() && r != cell.position.0 ==> (#[trigger] final(cells)@[r])
                == old(cells)@[r],
        final(cells)@[cell.position.0 as int]@ == old(cells)@[cell.position.0 as int]@.update(
            cell.position.1 as int,
            cell,
        ),
    no_unwind
{
    cells[cell.position.0][cell.position.1] = cell;
}

/// A `height × width` matrix of cells. Both dimensions are fixed when the grid
/// is made, and every cell records the position at which it is stored.
#[derive(Debug, PartialEq, Eq)]
pub struct Grid {
    height: usize,
    width: usize,
    cell_size: u32,
    cells: Vec<Vec<GridCell>>,
}

impl View for Grid {
    type V = GridView;

    closed spec fn view(&self) -> GridView {
        GridView {
            height: self.height as nat,
            width: self.width as nat,
            cell_size: self.cell_size as nat,
            kinds: Seq::new(
                self.height as nat,
                |r: int| Seq::new(self.width as nat, |c: int| self.cells@[r]@[c].kind),
            ),
        }
    }
}

impl Clone for Grid {
    /// A grid of its own with the same dimensions and the same cells.
    fn clone(&self) -> (copy: Grid)
        ensures
            copy@ == self@,
    {
        let mut cells: Vec<Vec<GridCell>> = Vec::new();
        let mut r: usize = 0;
        while r < self.height
            invariant
                r <= self.height,
                cells@.len() == r,
                forall|i: int| 0 <= i < r ==> (#[trigger] cells@[i])@ == self.cells@[i]@,
            decreases self.height - r,
        {
            let mut row: Vec<GridCell> = Vec::new();
            let mut c: usize = 0;
            while c < self.width
                invariant
                    c <= self.width,
                    r < self.height,
                    row@.len() == c,
                    forall|j: int| 0 <= j < c ==> #[trigger] row@[j] == self.cells@[r as int]@[j],
                decreases self.width - c,
            {
                proof {
                    use_type_invariant(self);
                }
                row.push(self.cells[r][c]);
                c = c + 1;
            }
            proof {
                use_type_invariant(self);
            }
            cells.push(row);
            r = r + 1;
        }
        proof {
            use_type_invariant(self);
        }
        let copy = Grid { height: self.height, width: self.width, cell_size: self.cell_size, cells };
        copy
    }
}

impl Grid {
    #[verifier::type_invariant]
    spec fn inv(&self) -> bool {
        &&& self.cells@.len() == self.height
        &&& forall|r: int| 0 <= r < self.height ==> (#[trigger] self.cells@[r])@.len() == self.width
        &&& forall|r: int, c: int|
            0 <= r < self.height && 0 <= c < self.width ==> (#[trigger] self.cells@[r]@[c]).position
                == (r as usize, c as usize)
    }

    /// Every grid's view is well formed.
    pub proof fn lemma_view_wf(&self)
        ensures
            self@.wf(),
    {
    }

    /// A grid of the given dimensions in which every cell is `Empty`.
    pub fn new(height: usize, width: usize, cell_size: u32) -> (grid: Grid)
        ensures
            grid@ == GridView::blank(height as nat, width as nat, cell_size as nat),
    {
        let mut cells: Vec<Vec<GridCell>> = Vec::new();
        let mut r: usize = 0;
        while r < height
            invariant
                r <= height,
                cells@.len() == r,
                forall|i: int| 0 <= i < r ==> (#[trigger] cells@[i])@.len() == width,
                forall|i: int, j: int|
                    0 <= i < r && 0 <= j < width ==> (#[trigger] cells@[i]@[j]) == (GridCell {
                        kind: CellKind::Empty,
                        position: (i as usize, j as usize),
                    }),
            decreases height - r,
        {
            let mut row: Vec<GridCell> = Vec::new();
            let mut c: usize = 0;
            while c < width
                invariant
                    c <= width,
                    r < height,
                    row@.len() == c,
                    forall|j: int|
                        0 <= j < c ==> (#[trigger] row@[j]) == (GridCell {
                            kind: CellKind::Empty,
                            position: (r, j as usize),
                        }),
                decreases width - c,
            {
                row.push(GridCell { kind: CellKind::Empty, position: (r, c) });
                c = c + 1;
            }
            cells.push(row);
            r = r + 1;
        }
        let grid = Grid { height, width, cell_size, cells };
        assert(grid@.kinds =~~= GridView::blank(height as nat, width as nat, cell_size as nat).kinds);
        grid
    }

    /// The number of rows.
    pub fn height(&self) -> (h: usize)
        ensures
            h == self@.height,
    {
        self.height
    }

    /// The number of columns.
    pub fn width(&self) -> (w: usize)
        ensures
            w == self@.width,
    {
        self.width
    }

    /// The side of one cell in world units.
    pub fn cell_size(&self) -> (s: u32)
        ensures
            s == self@.cell_size,
    {
        self.cell_size
    }

    /// The cell at `position`, or `None` when `position` lies outside the grid.
    pub fn get(&self, position: (usize, usize)) -> (cell: Option<GridCell>)
        ensures
            cell == if self@.in_bounds(position) {
                Some(self@.cell_at(position))
            } else {
                None
            },
    {
        proof {
            use_type_invariant(self);
        }
        if position.0 < self.height && position.1 < self.width {
            Some(self.cells[position.0][position.1])
        } else {
            None
        }
    }

    /// The whole grid as `(position, kind)` pairs in row-major order.
    pub fn cells(&self) -> (listed: Vec<((usize, usize), CellKind)>)
        ensures
            listed@ == self@.row_major(),
    {
        let ghost all = self@.row_major();
        let mut listed: Vec<((usize, usize), CellKind)> = Vec::new();
        let mut r: usize = 0;
        while r < self.height
            invariant
                r <= self.height,
                all == self@.row_major(),
                listed@.len() == r * self.width,
                forall|i: int| 0 <= i < listed@.len() ==> #[trigger] listed@[i] == all[i],
            decreases self.height - r,
        {
            let mut c: usize = 0;
            while c < self.width
                invariant
                    r < self.height,
                    c <= self.width,
                    all == self@.row_major(),
                    listed@.len() == r * self.width + c,
                    forall|i: int| 0 <= i < listed@.len() ==> #[trigger] listed@[i] == all[i],
                decreases self.width - c,
            {
                proof {
                    use_type_invariant(self);
                    let i = r * self.width + c;
                    lemma_fundamental_div_mod_converse(i, self.width as int, r as int, c as int);
                    assert(i < self.height * self.width) by (nonlinear_arith)
                        requires
                            i == r * self.width + c,
                            r < self.height,
                            c < self.width,
                    ;
                }
                let cell = self.cells[r][c];
                listed.push((cell.position, cell.kind));
                c = c + 1;
            }
            assert((r + 1) * self.width == r * self.width + self.width) by (nonlinear_arith);
            r = r + 1;
        }
        listed
    }

    /// The first position, in row-major order, whose cell is of the given kind.
    pub fn locate(&self, kind: CellKind) -> (found: Option<(usize, usize)>)
        ensures
            match found {
                Some(position) => {
                    &&& self@.in_bounds(position)
                    &&& self@.kind_at(position) == kind
                    &&& forall|other: (usize, usize)|
                        self@.in_bounds(other) && GridView::precedes(other, position)
                            ==> #[trigger] self@.kind_at(other) != kind
                },
                None => forall|other: (usize, usize)|
                    self@.in_bounds(other) ==> #[trigger] self@.kind_at(other) != kind,
            },
    {
        let mut r: usize = 0;
        while r < self.height
            invariant
                r <= self.height,
                forall|other: (usize, usize)|
                    self@.in_bounds(other) && other.0 < r ==> #[trigger] self@.kind_at(other) != kind,
            decreases self.height - r,
        {
            let mut c: usize = 0;
            while c < self.width
                invariant
                    r < self.height,
                    c <= self.width,
                    forall|other: (usize, usize)|
                        self@.in_bounds(other) && other.0 < r ==> #[trigger] self@.kind_at(other)
                            != kind,
                    forall|other: (usize, usize)|
                        other.0 == r && other.1 < c ==> #[trigger] self@.kind_at(other) != kind,
                decreases self.width - c,
            {
                proof {
                    use_type_invariant(self);
                }
                if self.cells[r][c].kind == kind {
                    return Some((r, c));
                }
                c = c + 1;
            }
            r = r + 1;
        }
        None
    }

    /// Writes a cell of the given kind at `position`, replacing what was there.
    pub fn set(&mut self, position: (usize, usize), kind: CellKind) -> (done: Result<(), GridError>)
        ensures
            old(self)@.in_bounds(position) ==> done == Ok::<(), GridError>(()) && final(self)@ == old(
                self,
            )@.with_kind(position, kind),
            !old(self)@.in_bounds(position) ==> done == Err::<(), GridError>(GridError::OutOfBounds)
                && final(self)@ == old(self)@,
            final(self)@.height == old(self)@.height,
            final(self)@.width == old(self)@.width,
            final(self)@.cell_size == old(self)@.cell_size,
    {
        proof {
            use_type_invariant(&*self);
        }
        if position.0 < self.height && position.1 < self.width {
            store(&mut self.cells, GridCell { kind, position });
            assert(self@.kinds =~~= old(self)@.with_kind(position, kind).kinds);
            Ok(())
        } else {
            Err(GridError::OutOfBounds)
        }
    }
}

/// In row-major order the cell at `(row, col)` is the one numbered
/// `row * width + col`.
pub proof fn lemma_row_major_index(grid: GridView, position: (usize, usize))
    requires
        grid.wf(),
        grid.in_bounds(position),
    ensures
        0 <= position.0 * grid.width + position.1 < grid.row_major().len(),
        grid.row_major()[position.0 * grid.width + position.1] == (position, grid.kind_at(position)),
{
    let index = position.0 * grid.width + position.1;
    lemma_fundamental_div_mod_converse(index, grid.width as int, position.0 as int, position.1 as int);
    assert(0 <= index < grid.height * grid.width) by (nonlinear_arith)
        requires
            index == position.0 * grid.width + position.1,
            position.0 < grid.height,
            position.1 < grid.width,
    ;
}

/// A write is seen at the position written, whatever was there before, and
/// nowhere else; the grid keeps its dimensions.
pub proof fn lemma_with_kind(grid: GridView, position: (usize, usize), kind: CellKind)
    requires
        grid.wf(),
        grid.in_bounds(position),
    ensures
        grid.with_kind(position, kind).wf(),
        grid.with_kind(position, kind).height == grid.height,
        grid.with_kind(position, kind).width == grid.width,
        grid.with_kind(position, kind).cell_size == grid.cell_size,
        grid.with_kind(position, kind).kind_at(position) == kind,
        forall|other: (usize, usize)|
            grid.in_bounds(other) && other != position ==> #[trigger] grid.with_kind(
                position,
                kind,
            ).kind_at(other) == grid.kind_at(other),
{
}

} // verus!
