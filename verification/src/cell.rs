//! The unit of the playspace: what occupies a cell, and where the cell lies.

use vstd::prelude::*;

verus! {

/// What occupies a cell.
#[derive(Clone, Copy, Debug, PartialEq, Eq, Structural)]
pub enum CellKind {
    Empty,
    Wall,
    Occupant,
}

/// One cell of a grid: its kind, and the `(row, col)` at which the grid holds it.
#[derive(Clone, Copy, Debug, PartialEq, Eq)]
pub struct GridCell {
    pub kind: CellKind,
    pub position: (usize, usize),
}

/// Why an operation on the playspace was refused.
#[derive(Clone, Copy, Debug, PartialEq, Eq, Structural)]
pub enum GridError {
    /// A position outside the grid was handed to an accessor.
    OutOfBounds,
    /// The requested grid cannot hold a border and one interior cell.
    InvalidDimensions,
    /// The random source could not deliver.
    RandomnessUnavailable,
}

impl CellKind {
    /// The one-character symbol under which a cell of this kind is displayed.
    pub open spec fn spec_symbol(self) -> char {
        match self {
            CellKind::Empty => '0',
            CellKind::Wall => 'W',
            CellKind::Occupant => 'P',
        }
    }

    #[verifier::when_used_as_spec(spec_symbol)]
    pub fn symbol(self) -> (c: char)
        ensures
            c == self.spec_symbol(),
    {
        match self {
            CellKind::Empty => '0',
            CellKind::Wall => 'W',
            CellKind::Occupant => 'P',
        }
    }
}

} // verus!
