//! A bordered rectangular playspace for a top-down grid game: the cells, the
//! grid that owns them, the generator that populates it and the transform
//! from grid positions to world coordinates.

pub mod border;
pub mod cell;
pub mod generator;
pub mod grid;
pub mod mapper;
pub mod neighbors;
pub mod rng;
pub mod steering;
