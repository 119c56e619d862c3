//! Coordinate algebra for flat-topped hexagonal grids.
//!
//! The crate exposes q-r axial coordinates ([`HexCoord`]) as the primary
//! coordinate type, in a "right-handed" (`q` increasing east, `r` increasing
//! north) flat-topped coordinate system, together with the redundant cube
//! representation whose three fields always sum to zero. It offers stepping
//! to one of the six neighboring cells, the hex grid ("Manhattan") distance,
//! and an exact projection of cell centers and corners onto the quarter-unit
//! lattice that all of them lie on.

pub mod axial;
pub mod cartesian;
pub mod cube;
pub mod direction;
pub mod laws;

pub use axial::HexCoord;
pub use cartesian::CartesianPoint;
pub use cube::CubeInvariantError;
pub use cube::HexCubeCoord;
pub use direction::Direction;
pub use direction::DirectionError;
