//! Exact Cartesian positions of hex cell centers and corners.
//!
//! For unit-width flat-topped hexes in a right-handed frame (`x` increasing
//! east, `y` increasing north), every cell center and every cell corner
//! lies on the lattice spanned by the two vectors `(1/4, 0)` and
//! `(0, sqrt(3)/4)`. A [`CartesianPoint`] records the two integer lattice
//! coefficients, so the projection is exact; scaling by `1/4` and
//! `sqrt(3)/4` into floating-point rendering space is left to the consumer.

use vstd::prelude::*;

verus! {

/// A point of the quarter-unit lattice: the Cartesian point
/// `(x_quarters / 4, y_sqrt3_quarters * sqrt(3) / 4)`.
#[derive(Debug, Clone, Copy, PartialEq, Eq, Hash, Structural)]
pub struct CartesianPoint {
    /// Signed multiple of `1/4` giving the `x` coordinate.
    pub x_quarters: i64,
    /// Signed multiple of `sqrt(3)/4` giving the `y` coordinate.
    pub y_sqrt3_quarters: i64,
}

/// `x` coordinate of the center of the cell at axial `(q, r)`, in quarter
/// units: the Cartesian `x` is `0.75 * q`, that is `3 * q` quarters.
pub open spec fn center_x_quarters(q: int) -> int {
    3 * q
}

/// `y` coordinate of the center of the cell at axial `(q, r)`, in units of
/// `sqrt(3)/4`: the Cartesian `y` is `-(sqrt(3)/2) * (0.5 * q - r)`, that
/// is `(2 * r - q)` units of `sqrt(3)/4`.
pub open spec fn center_y_sqrt3_quarters(q: int, r: int) -> int {
    2 * r - q
}

/// `x` offset, in quarter units, from a cell center to its corner number
/// `k`; corners are numbered counterclockwise starting with the
/// easternmost.
pub open spec fn corner_dx_quarters(k: int) -> int {
    if k == 0 {
        2
    } else if k == 1 {
        1
    } else if k == 2 {
        -1
    } else if k == 3 {
        -2
    } else if k == 4 {
        -1
    } else {
        1
    }
}

/// `y` offset, in units of `sqrt(3)/4`, from a cell center to its corner
/// number `k`.
pub open spec fn corner_dy_sqrt3_quarters(k: int) -> int {
    if k == 0 {
        0
    } else if k == 1 {
        1
    } else if k == 2 {
        1
    } else if k == 3 {
        0
    } else if k == 4 {
        -1
    } else {
        -1
    }
}

/// Corner number `k` (counterclockwise from the easternmost) of the cell
/// at axial `(q, r)`, as a lattice point.
pub open spec fn corner_point(q: int, r: int, k: int) -> CartesianPoint {
    CartesianPoint {
        x_quarters: (center_x_quarters(q) + corner_dx_quarters(k)) as i64,
        y_sqrt3_quarters: (center_y_sqrt3_quarters(q, r) + corner_dy_sqrt3_quarters(k)) as i64,
    }
}

} // verus!
