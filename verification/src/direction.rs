//! Compass directions over the six edges of a flat-topped hex cell.

use vstd::prelude::*;

verus! {

/// "Compass" directions on the flat-topped hex grid.
///
/// Each direction names one of the six edges of a flat-topped hex cell.
/// The canonical index order is NE, N, NW, SW, S, SE (indices 0 through 5);
/// the neighbor-offset table of [`crate::axial::HexCoord`] is stated in
/// terms of this fixed order.
#[derive(Debug, Clone, Copy, PartialEq, Eq, Structural)]
pub enum Direction {
    /// Northeast
    NE,
    /// North
    N,
    /// Northwest
    NW,
    /// Southwest
    SW,
    /// South
    S,
    /// Southeast
    SE,
}

/// Error indicating that the given direction index is out of range:
/// only indices in `[0, 6)` name a [`Direction`].
#[derive(Debug, Clone, Copy, PartialEq, Eq, Hash, Structural)]
pub struct DirectionError(pub usize);

/// Index of a direction in the canonical order NE, N, NW, SW, S, SE.
pub open spec fn dir_index(d: Direction) -> int {
    match d {
        Direction::NE => 0,
        Direction::N => 1,
        Direction::NW => 2,
        Direction::SW => 3,
        Direction::S => 4,
        Direction::SE => 5,
    }
}

/// Direction at a given index in the canonical order.
/// Meaningful for `0 <= i < 6`; every index from 6 on is mapped to SE.
pub open spec fn index_dir(i: int) -> Direction {
    if i == 0 {
        Direction::NE
    } else if i == 1 {
        Direction::N
    } else if i == 2 {
        Direction::NW
    } else if i == 3 {
        Direction::SW
    } else if i == 4 {
        Direction::S
    } else {
        Direction::SE
    }
}

/// The compass opposite of a direction: NE and SW, N and S, NW and SE
/// are opposite pairs.
pub open spec fn dir_opposite(d: Direction) -> Direction {
    match d {
        Direction::NE => Direction::SW,
        Direction::N => Direction::S,
        Direction::NW => Direction::SE,
        Direction::SW => Direction::NE,
        Direction::S => Direction::N,
        Direction::SE => Direction::NW,
    }
}

/// Offset along the `q` axis (east) of one step in direction `d`.
pub open spec fn dir_dq(d: Direction) -> int {
    match d {
        Direction::NE => 1,
        Direction::N => 0,
        Direction::NW => -1,
        Direction::SW => -1,
        Direction::S => 0,
        Direction::SE => 1,
    }
}

/// Offset along the `r` axis (north) of one step in direction `d`.
pub open spec fn dir_dr(d: Direction) -> int {
    match d {
        Direction::NE => 1,
        Direction::N => 1,
        Direction::NW => 0,
        Direction::SW => -1,
        Direction::S => -1,
        Direction::SE => 0,
    }
}

impl Direction {
    /// Fixed index of this direction in the canonical order NE, N, NW, SW,
    /// S, SE; always in `[0, 6)`, and injective over the six directions.
    pub fn to_index(self) -> (i: usize)
        ensures
            i == dir_index(self),
    {
        match self {
            Direction::NE => 0,
            Direction::N => 1,
            Direction::NW => 2,
            Direction::SW => 3,
            Direction::S => 4,
            Direction::SE => 5,
        }
    }

    /// Direction at index `i` in the canonical order: the inverse of
    /// [`Direction::to_index`] on `[0, 6)`. Fails with `DirectionError(i)`
    /// exactly when `i >= 6`.
    pub fn from_index(i: usize) -> (r: Result<Direction, DirectionError>)
        ensures
            i < 6 ==> r == Ok::<Direction, DirectionError>(index_dir(i as int)),
            i >= 6 ==> r == Err::<Direction, DirectionError>(DirectionError(i)),
    {
        match i {
            0 => Ok(Direction::NE),
            1 => Ok(Direction::N),
            2 => Ok(Direction::NW),
            3 => Ok(Direction::SW),
            4 => Ok(Direction::S),
            5 => Ok(Direction::SE),
            _ => Err(DirectionError(i)),
        }
    }

    /// The compass opposite of this direction (NE and SW, N and S, NW and SE).
    pub fn opposite(self) -> (r: Direction)
        ensures
            r == dir_opposite(self),
    {
        match self {
            Direction::NE => Direction::SW,
            Direction::N => Direction::S,
            Direction::NW => Direction::SE,
            Direction::SW => Direction::NE,
            Direction::S => Direction::N,
            Direction::SE => Direction::NW,
        }
    }
}

/// Law: the index mapping is a bijection between the six directions and
/// `{0, ..., 5}`: indexing is within range, `index_dir` inverts
/// `dir_index` on every direction, and `dir_index` inverts `index_dir` on
/// every index in range.
pub proof fn lemma_direction_index_bijection(d: Direction, i: int)
    requires
        0 <= i < 6,
    ensures
        0 <= dir_index(d) < 6,
        index_dir(dir_index(d)) == d,
        dir_index(index_dir(i)) == i,
{
}

/// Law: taking the compass opposite twice gives the direction back, and the
/// offset of the opposite direction is the additive inverse of the offset.
pub proof fn lemma_opposite_direction(d: Direction)
    ensures
        dir_opposite(dir_opposite(d)) == d,
        dir_dq(dir_opposite(d)) == -dir_dq(d),
        dir_dr(dir_opposite(d)) == -dir_dr(d),
{
}

} // verus!
