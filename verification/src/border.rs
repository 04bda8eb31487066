//! The outer ring of a grid and the rectangle it encloses.

use vstd::prelude::*;

verus! {

/// Whether `position` is a cell of the outermost ring of a `height × width` grid.
pub open spec fn on_border(height: nat, width: nat, position: (usize, usize)) -> bool {
    &&& position.0 < height
    &&& position.1 < width
    &&& (position.0 == 0 || position.0 + 1 == height || position.1 == 0 || position.1 + 1 == width)
}

/// Whether `position` lies strictly inside the border: its row is in
/// `[1, height - 2]` and its column in `[1, width - 2]`.
pub open spec fn in_interior(height: nat, width: nat, position: (usize, usize)) -> bool {
    &&& 1 <= position.0 <= height - 2
    &&& 1 <= position.1 <= width - 2
}

/// The `index`-th cell of the sweep along the top and bottom rows: column by
/// column, the top cell before the bottom one.
pub open spec fn rows_sweep(height: nat, index: int) -> (usize, usize) {
    (
        if index % 2 == 0 {
            0
        } else {
            (height - 1) as usize
        },
        (index / 2) as usize,
    )
}

/// The `index`-th cell of the sweep along the left and right columns between
/// the top and bottom rows: row by row, the left cell before the right one.
pub open spec fn columns_sweep(width: nat, index: int) -> (usize, usize) {
    (
        (1 + index / 2) as usize,
        if index % 2 == 0 {
            0
        } else {
            (width - 1) as usize
        },
    )
}

/// The border of a grid of at least two rows and two columns as one sequence:
/// first the sweep along the top and bottom rows, then the sweep along the
/// left and right columns, which leaves the corners to the first.
pub open spec fn border_ring(height: nat, width: nat) -> Seq<(usize, usize)> {
    Seq::new(2 * width, |i: int| rows_sweep(height, i)) + Seq::new(
        (2 * (height - 2)) as nat,
        |i: int| columns_sweep(width, i),
    )
}

/// The border holds `2 * (height + width) - 4` cells, each of them once; all
/// of them lie on the border, and no border cell is missing.
pub proof fn lemma_border_ring(height: nat, width: nat)
    requires
        2 <= height <= usize::MAX,
        2 <= width <= usize::MAX,
    ensures
        border_ring(height, width).len() == 2 * (height + width) - 4,
        border_ring(height, width).no_duplicates(),
        forall|position: (usize, usize)|
            border_ring(height, width).contains(position) <==> on_border(height, width, position),
{
    let ring = border_ring(height, width);
    assert forall|position: (usize, usize)| on_border(height, width, position) implies ring.contains(
        position,
    ) by {
        let index: int = if position.0 == 0 {
            2 * position.1
        } else if position.0 + 1 == height {
            2 * position.1 + 1
        } else if position.1 == 0 {
            2 * width + 2 * (position.0 - 1)
        } else {
            2 * width + 2 * (position.0 - 1) + 1
        };
        assert(0 <= index < ring.len() && ring[index] == position);
    }
}

/// The border cells of a `height × width` grid, each once, in the order of
/// `border_ring`.
pub fn border_positions(height: usize, width: usize) -> (ring: Vec<(usize, usize)>)
    requires
        height >= 2,
        width >= 2,
    ensures
        ring@ == border_ring(height as nat, width as nat),
{
    let mut ring: Vec<(usize, usize)> = Vec::new();
    let mut col: usize = 0;
    while col < width
        invariant
            col <= width,
            height >= 2,
            ring@.len() == 2 * col,
            forall|i: int| 0 <= i < ring@.len() ==> #[trigger] ring@[i] == rows_sweep(height as nat, i),
        decreases width - col,
    {
        ring.push((0, col));
        ring.push((height - 1, col));
        col = col + 1;
    }
    let mut row: usize = 1;
    while row < height - 1
        invariant
            1 <= row <= height - 1,
            width >= 2,
            ring@.len() == 2 * width + 2 * (row - 1),
            forall|i: int| 0 <= i < 2 * width ==> #[trigger] ring@[i] == rows_sweep(height as nat, i),
            forall|i: int|
                2 * width <= i < ring@.len() ==> #[trigger] ring@[i] == columns_sweep(
                    width as nat,
                    i - 2 * width,
                ),
        decreases height - row,
    {
        ring.push((row, 0));
        ring.push((row, width - 1));
        row = row + 1;
    }
    ring
}

} // verus!
