//! Cube (x-y-z) hex grid coordinates, with the invariant `x + y + z = 0`.

use vstd::math::abs;
use vstd::prelude::*;

use crate::axial::HexCoord;
use crate::cartesian::CartesianPoint;
use crate::cartesian::center_x_quarters;
use crate::cartesian::center_y_sqrt3_quarters;
use crate::cartesian::corner_point;
use crate::direction::Direction;
use crate::direction::dir_dq;
use crate::direction::dir_dr;

verus! {

/// Hex cube coordinates. This is opaque, to protect the coordinate
/// invariant: the coordinate system is redundant, so the invariant
///
/// > `x + y + z == 0`
///
/// is maintained internally. The only ways to obtain a value are the
/// checked constructor [`HexCubeCoord::new`], the caller-asserted
/// [`HexCubeCoord::new_unchecked`], and conversion from an axial
/// coordinate, which establishes the invariant by construction.
#[derive(Debug, Default, Clone, Copy, PartialEq, Eq, PartialOrd, Ord, Hash, Structural)]
pub struct HexCubeCoord {
    x: i64,
    y: i64,
    z: i64,
}

/// Error indicating that the cube invariant
///
/// > `x + y + z == 0`
///
/// has been violated by the given coordinate triple, which it carries
/// for diagnostics.
#[derive(Debug, Clone, Copy, PartialEq, Eq, Hash, Structural)]
pub struct CubeInvariantError {
    /// The offending `x` component.
    pub x: i64,
    /// The offending `y` component.
    pub y: i64,
    /// The offending `z` component.
    pub z: i64,
}

impl View for HexCubeCoord {
    type V = (int, int, int);

    closed spec fn view(&self) -> (int, int, int) {
        (self.x as int, self.y as int, self.z as int)
    }
}

/// Whether a cube coordinate triple satisfies the invariant: the three
/// components sum to zero.
pub open spec fn cube_valid(v: (int, int, int)) -> bool {
    v.0 + v.1 + v.2 == 0
}

/// The cube coordinate triple of the cell at axial `(q, r)`: `x = q`,
/// `z = r`, and `y` is determined by the invariant. This conversion is
/// total and always yields a valid triple.
pub open spec fn axial_to_cube(q: int, r: int) -> (int, int, int) {
    (q, -q - r, r)
}

/// The axial coordinate of the cell with cube triple `v`: `q = x`,
/// `r = z`. Meaningful for valid triples, where it inverts
/// [`axial_to_cube`].
pub open spec fn cube_to_axial(v: (int, int, int)) -> (int, int) {
    (v.0, v.2)
}

/// Hex grid ("Manhattan") distance between the cells with cube triples
/// `a` and `b`: half the sum of the absolute componentwise differences.
pub open spec fn cube_distance(a: (int, int, int), b: (int, int, int)) -> int {
    (abs(a.0 - b.0) + abs(a.1 - b.1) + abs(a.2 - b.2)) as int / 2
}

/// The cube triple one step from `v` in direction `d`, reached through
/// the axial representation: the result is valid whatever `v` was.
pub open spec fn cube_neighbor(v: (int, int, int), d: Direction) -> (int, int, int) {
    axial_to_cube(v.0 + dir_dq(d), v.2 + dir_dr(d))
}

impl HexCubeCoord {
    /// Whether this coordinate satisfies the cube invariant.
    pub open spec fn valid(self) -> bool {
        cube_valid(self@)
    }

    /// Make a cube coordinate, checking that the invariant is satisfied.
    /// Succeeds exactly when `x + y + z == 0`; otherwise fails with an
    /// error carrying the rejected triple.
    pub fn new(x: i64, y: i64, z: i64) -> (r: Result<HexCubeCoord, CubeInvariantError>)
        ensures
            x + y + z == 0 ==> (r matches Ok(c) && c@ == (x as int, y as int, z as int)
                && c.valid()),
            x + y + z != 0 ==> (r matches Err(e) && e.x == x && e.y == y && e.z == z),
    {
        let sum: i128 = x as i128 + y as i128 + z as i128;
        if sum == 0 {
            Ok(HexCubeCoord { x, y, z })
        } else {
            Err(CubeInvariantError { x, y, z })
        }
    }

    /// Make a cube coordinate without checking the invariant. The
    /// operations on the type give semantically meaningless (though
    /// well-defined) results if the invariant does not hold, so only use
    /// this when the triple is certain to sum to zero.
    pub fn new_unchecked(x: i64, y: i64, z: i64) -> (c: Self)
        ensures
            c@ == (x as int, y as int, z as int),
    {
        HexCubeCoord { x, y, z }
    }

    /// Return the cube coordinates as an `(x, y, z)` triple.
    pub fn coords(self) -> (t: (i64, i64, i64))
        ensures
            t.0 == self@.0,
            t.1 == self@.1,
            t.2 == self@.2,
    {
        (self.x, self.y, self.z)
    }

    /// "Manhattan distance" from `self` to `b`: half the sum of the
    /// absolute componentwise differences of the two triples.
    pub fn distance(self, b: Self) -> (d: i64)
        requires
            cube_distance(self@, b@) <= i64::MAX,
        ensures
            d == cube_distance(self@, b@),
    {
        let dx: i128 = self.x as i128 - b.x as i128;
        let dy: i128 = self.y as i128 - b.y as i128;
        let dz: i128 = self.z as i128 - b.z as i128;
        let ax: u128 = if dx < 0 { (-dx) as u128 } else { dx as u128 };
        let ay: u128 = if dy < 0 { (-dy) as u128 } else { dy as u128 };
        let az: u128 = if dz < 0 { (-dz) as u128 } else { dz as u128 };
        let half: u128 = (ax + ay + az) / 2;
        half as i64
    }

    /// Coordinate of the hex neighboring `self` in direction `d`,
    /// reached by stepping in the axial representation and converting
    /// back; the result satisfies the invariant whatever `self` held.
    /// See [`HexCoord::neighbor`] for the offset table.
    pub fn neighbor(self, d: Direction) -> (c: Self)
        requires
            i64::MIN <= self@.0 + dir_dq(d) <= i64::MAX,
            i64::MIN <= self@.2 + dir_dr(d) <= i64::MAX,
            i64::MIN <= -(self@.0 + dir_dq(d)) - (self@.2 + dir_dr(d)) <= i64::MAX,
        ensures
            c@ == cube_neighbor(self@, d),
            c.valid(),
    {
        HexCubeCoord::from_axial(HexCoord::new(self.x, self.z).neighbor(d))
    }

    /// Convert an axial coordinate to the cube representation. This is
    /// total up to machine range: `x = q`, `z = r`, and `y` is chosen so
    /// that the invariant holds.
    pub fn from_axial(a: HexCoord) -> (c: Self)
        requires
            i64::MIN <= -a.q - a.r <= i64::MAX,
        ensures
            c@ == axial_to_cube(a.q as int, a.r as int),
            c.valid(),
    {
        let y: i128 = -(a.q as i128) - (a.r as i128);
        HexCubeCoord { x: a.q, y: y as i64, z: a.r }
    }

    /// Convert this cube coordinate to the axial representation:
    /// `q = x`, `r = z`. Succeeds exactly when the invariant holds of
    /// the triple; otherwise fails with an error carrying the triple.
    pub fn to_axial(self) -> (r: Result<HexCoord, CubeInvariantError>)
        ensures
            self.valid() ==> (r matches Ok(a) && (a.q as int, a.r as int)
                == cube_to_axial(self@)),
            !self.valid() ==> (r matches Err(e) && e.x == self@.0 && e.y == self@.1
                && e.z == self@.2),
    {
        let sum: i128 = self.x as i128 + self.y as i128 + self.z as i128;
        if sum == 0 {
            Ok(HexCoord::new(self.x, self.z))
        } else {
            Err(CubeInvariantError { x: self.x, y: self.y, z: self.z })
        }
    }

    /// Cartesian coordinates of the center of `self`, as an exact point
    /// of the quarter-unit lattice. See [`HexCoord::cartesian_center`].
    pub fn cartesian_center(self) -> (p: CartesianPoint)
        requires
            i64::MIN <= center_x_quarters(self@.0) <= i64::MAX,
            i64::MIN <= center_y_sqrt3_quarters(self@.0, self@.2) <= i64::MAX,
        ensures
            p.x_quarters == center_x_quarters(self@.0),
            p.y_sqrt3_quarters == center_y_sqrt3_quarters(self@.0, self@.2),
    {
        HexCoord::new(self.x, self.z).cartesian_center()
    }

    /// Cartesian coordinates of the six corners of `self`, given
    /// counterclockwise starting with the easternmost, as exact points
    /// of the quarter-unit lattice. See [`HexCoord::cartesian_corners`].
    pub fn cartesian_corners(self) -> (cs: [CartesianPoint; 6])
        requires
            i64::MIN + 2 <= center_x_quarters(self@.0) <= i64::MAX - 2,
            i64::MIN + 1 <= center_y_sqrt3_quarters(self@.0, self@.2) <= i64::MAX - 1,
        ensures
            cs@[0] == corner_point(self@.0, self@.2, 0),
            cs@[1] == corner_point(self@.0, self@.2, 1),
            cs@[2] == corner_point(self@.0, self@.2, 2),
            cs@[3] == corner_point(self@.0, self@.2, 3),
            cs@[4] == corner_point(self@.0, self@.2, 4),
            cs@[5] == corner_point(self@.0, self@.2, 5),
    {
        HexCoord::new(self.x, self.z).cartesian_corners()
    }
}

} // verus!
