//! A deterministic walker over a fixed-size rectangular grid of binary cells.
//!
//! Each step toggles the cell under the walker, turns the walker according to
//! the new cell colour (white: clockwise, black: counterclockwise), and then
//! advances one cell; the walk ends when the next cell would lie outside the
//! grid. The grid is stored bit-packed, and every cell access inside the walk
//! loop goes through a coordinate that has been validated against the grid's
//! dimensions.

pub mod ant;
pub mod counting;
pub mod direction;
pub mod grid;
pub mod pos;
pub mod snapshot;
pub mod storage;

pub use ant::Ant;
pub use direction::Direction;
pub use grid::Grid;
pub use pos::MapPos;
pub use pos::Pos;
