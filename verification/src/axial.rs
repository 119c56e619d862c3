//! Axial (q-r) hex grid coordinates, the primary coordinate type.

use vstd::prelude::*;

use crate::cartesian::CartesianPoint;
use crate::cartesian::center_x_quarters;
use crate::cartesian::center_y_sqrt3_quarters;
use crate::cartesian::corner_point;
use crate::cube::axial_to_cube;
use crate::cube::cube_distance;
use crate::direction::Direction;
use crate::direction::dir_dq;
use crate::direction::dir_dr;

verus! {

/// Hex grid location in axial coordinates: `q` increasing east and `r`
/// increasing north on a flat-topped grid. This is transparent, but in
/// normal use there is no need to look at its internals; any pair of
/// values is a valid coordinate.
#[derive(Debug, Default, Clone, Copy, PartialEq, Eq, PartialOrd, Ord, Hash, Structural)]
pub struct HexCoord {
    /// Column axis, increasing east.
    pub q: i64,
    /// Row axis, increasing north.
    pub r: i64,
}

/// The axial coordinate one step from `(q, r)` in direction `d`.
pub open spec fn axial_neighbor(q: int, r: int, d: Direction) -> (int, int) {
    (q + dir_dq(d), r + dir_dr(d))
}

impl HexCoord {
    /// Make a hex axial coordinate, in a "right-handed" flat-topped
    /// coordinate system (`q` increasing east, `r` increasing north).
    pub fn new(q: i64, r: i64) -> (c: Self)
        ensures
            c.q == q,
            c.r == r,
    {
        HexCoord { q, r }
    }

    /// Axial coordinate of the hex neighboring `self` in direction `d`.
    ///
    /// The six offsets form a fixed table for the flat-topped,
    /// right-handed layout: the offset for a direction is the additive
    /// inverse of the offset for the opposite direction, and the six
    /// offsets sum to the zero vector over a full compass cycle.
    pub fn neighbor(self, d: Direction) -> (c: Self)
        requires
            i64::MIN <= self.q + dir_dq(d) <= i64::MAX,
            i64::MIN <= self.r + dir_dr(d) <= i64::MAX,
        ensures
            (c.q as int, c.r as int) == axial_neighbor(self.q as int, self.r as int, d),
    {
        match d {
            Direction::NE => HexCoord::new(self.q + 1, self.r + 1),
            Direction::N => HexCoord::new(self.q, self.r + 1),
            Direction::NW => HexCoord::new(self.q - 1, self.r),
            Direction::SW => HexCoord::new(self.q - 1, self.r - 1),
            Direction::S => HexCoord::new(self.q, self.r - 1),
            Direction::SE => HexCoord::new(self.q + 1, self.r),
        }
    }

    /// "Manhattan distance" from `self` to `b`: the number of single
    /// neighbor steps needed to reach `b`, computed as the cube-space
    /// distance of the two converted coordinates.
    pub fn distance(self, b: Self) -> (d: i64)
        requires
            cube_distance(
                axial_to_cube(self.q as int, self.r as int),
                axial_to_cube(b.q as int, b.r as int),
            ) <= i64::MAX,
        ensures
            d == cube_distance(
                axial_to_cube(self.q as int, self.r as int),
                axial_to_cube(b.q as int, b.r as int),
            ),
    {
        let dq: i128 = self.q as i128 - b.q as i128;
        let dr: i128 = self.r as i128 - b.r as i128;
        // The y cube components are -(q + r), so their difference is -(dq + dr).
        let dy: i128 = -dq - dr;
        let aq: u128 = if dq < 0 { (-dq) as u128 } else { dq as u128 };
        let ay: u128 = if dy < 0 { (-dy) as u128 } else { dy as u128 };
        let ar: u128 = if dr < 0 { (-dr) as u128 } else { dr as u128 };
        let half: u128 = (aq + ay + ar) / 2;
        half as i64
    }

    /// `(x, y)` Cartesian coordinates of the center of `self`, for
    /// flat-topped hexes of unit width in a right-handed frame (`x`
    /// increasing east, `y` increasing north), as an exact point of the
    /// quarter-unit lattice.
    pub fn cartesian_center(self) -> (p: CartesianPoint)
        requires
            i64::MIN <= center_x_quarters(self.q as int) <= i64::MAX,
            i64::MIN <= center_y_sqrt3_quarters(self.q as int, self.r as int) <= i64::MAX,
        ensures
            p.x_quarters == center_x_quarters(self.q as int),
            p.y_sqrt3_quarters == center_y_sqrt3_quarters(self.q as int, self.r as int),
    {
        let x: i128 = 3 * self.q as i128;
        let y: i128 = 2 * self.r as i128 - self.q as i128;
        CartesianPoint { x_quarters: x as i64, y_sqrt3_quarters: y as i64 }
    }

    /// Cartesian coordinates of the six corners of `self`, for
    /// flat-topped hexes of unit width, given counterclockwise starting
    /// with the easternmost, as exact points of the quarter-unit lattice.
    pub fn cartesian_corners(self) -> (cs: [CartesianPoint; 6])
        requires
            i64::MIN + 2 <= center_x_quarters(self.q as int) <= i64::MAX - 2,
            i64::MIN + 1 <= center_y_sqrt3_quarters(self.q as int, self.r as int) <= i64::MAX - 1,
        ensures
            cs@[0] == corner_point(self.q as int, self.r as int, 0),
            cs@[1] == corner_point(self.q as int, self.r as int, 1),
            cs@[2] == corner_point(self.q as int, self.r as int, 2),
            cs@[3] == corner_point(self.q as int, self.r as int, 3),
            cs@[4] == corner_point(self.q as int, self.r as int, 4),
            cs@[5] == corner_point(self.q as int, self.r as int, 5),
    {
        let c = self.cartesian_center();
        let x: i64 = c.x_quarters;
        let y: i64 = c.y_sqrt3_quarters;
        [
            CartesianPoint { x_quarters: x + 2, y_sqrt3_quarters: y },
            CartesianPoint { x_quarters: x + 1, y_sqrt3_quarters: y + 1 },
            CartesianPoint { x_quarters: x - 1, y_sqrt3_quarters: y + 1 },
            CartesianPoint { x_quarters: x - 2, y_sqrt3_quarters: y },
            CartesianPoint { x_quarters: x - 1, y_sqrt3_quarters: y - 1 },
            CartesianPoint { x_quarters: x + 1, y_sqrt3_quarters: y - 1 },
        ]
    }
}

} // verus!
