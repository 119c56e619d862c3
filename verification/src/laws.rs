//! The algebraic laws of the coordinate system, each stated and proved
//! over the specification functions that the executable contracts use.

use vstd::math::abs;
use vstd::prelude::*;

use crate::axial::axial_neighbor;
use crate::cube::axial_to_cube;
use crate::cube::cube_distance;
use crate::cube::cube_neighbor;
use crate::cube::cube_to_axial;
use crate::cube::cube_valid;
use crate::direction::Direction;
use crate::direction::dir_opposite;

verus! {

/// Law: converting an axial coordinate to the cube representation always
/// yields a valid triple, and converting back gives the coordinate
/// unchanged, for every axial coordinate.
pub proof fn lemma_axial_cube_round_trip(q: int, r: int)
    ensures
        cube_valid(axial_to_cube(q, r)),
        cube_to_axial(axial_to_cube(q, r)) == (q, r),
{
}

/// Law: on valid triples, converting a cube coordinate to the axial
/// representation and back gives the triple unchanged.
pub proof fn lemma_cube_axial_round_trip(v: (int, int, int))
    requires
        cube_valid(v),
    ensures
        ({
            let a = cube_to_axial(v);
            axial_to_cube(a.0, a.1) == v
        }),
{
}

/// Law: stepping to a neighbor and then stepping in the compass opposite
/// direction returns to the starting axial coordinate, for every
/// coordinate and every direction.
pub proof fn lemma_neighbor_opposite_axial(q: int, r: int, d: Direction)
    ensures
        ({
            let n = axial_neighbor(q, r, d);
            axial_neighbor(n.0, n.1, dir_opposite(d)) == (q, r)
        }),
{
}

/// Law: stepping a valid cube coordinate to a neighbor and then stepping
/// in the compass opposite direction returns to the starting triple, for
/// every valid triple and every direction.
pub proof fn lemma_neighbor_opposite_cube(v: (int, int, int), d: Direction)
    requires
        cube_valid(v),
    ensures
        cube_neighbor(cube_neighbor(v, d), dir_opposite(d)) == v,
{
}

/// The axial coordinate reached from `(q, r)` by stepping through every
/// direction of `dirs` in order.
pub open spec fn axial_walk(q: int, r: int, dirs: Seq<Direction>) -> (int, int)
    decreases dirs.len(),
{
    if dirs.len() == 0 {
        (q, r)
    } else {
        let n = axial_neighbor(q, r, dirs[0]);
        axial_walk(n.0, n.1, dirs.drop_first())
    }
}

/// The cube triple reached from `v` by stepping through every direction
/// of `dirs` in order.
pub open spec fn cube_walk(v: (int, int, int), dirs: Seq<Direction>) -> (int, int, int)
    decreases dirs.len(),
{
    if dirs.len() == 0 {
        v
    } else {
        cube_walk(cube_neighbor(v, dirs[0]), dirs.drop_first())
    }
}

/// A compass cycle whose offsets sum to the zero vector: one step in each
/// of the six directions, with N and S taken twice.
pub open spec fn closed_walk_dirs() -> Seq<Direction> {
    seq![
        Direction::N,
        Direction::SW,
        Direction::S,
        Direction::SE,
        Direction::NE,
        Direction::N,
        Direction::NW,
        Direction::S,
    ]
}

/// Law: walking an axial coordinate through the closed compass cycle
/// returns to the exact starting coordinate, wherever the walk starts.
pub proof fn lemma_closed_walk_axial(q: int, r: int)
    ensures
        axial_walk(q, r, closed_walk_dirs()) == (q, r),
{
    reveal_with_fuel(axial_walk, 9);
}

/// Law: walking a valid cube coordinate through the closed compass cycle
/// returns to the exact starting triple, wherever the walk starts.
pub proof fn lemma_closed_walk_cube(v: (int, int, int))
    requires
        cube_valid(v),
    ensures
        cube_walk(v, closed_walk_dirs()) == v,
{
    reveal_with_fuel(cube_walk, 9);
}

/// The six compass directions, once each, in canonical index order.
pub open spec fn compass_cycle_dirs() -> Seq<Direction> {
    seq![
        Direction::NE,
        Direction::N,
        Direction::NW,
        Direction::SW,
        Direction::S,
        Direction::SE,
    ]
}

/// Law: one step in each of the six compass directions returns to the
/// exact starting coordinate: the six neighbor offsets sum to the zero
/// vector, the defining structural property of the offset table.
pub proof fn lemma_compass_cycle(q: int, r: int)
    ensures
        axial_walk(q, r, compass_cycle_dirs()) == (q, r),
{
    reveal_with_fuel(axial_walk, 7);
}

/// Law: the distance from a cube coordinate to itself is zero.
pub proof fn lemma_distance_self(a: (int, int, int))
    ensures
        cube_distance(a, a) == 0,
{
}

/// Law: the distance between two cube coordinates is symmetric.
pub proof fn lemma_distance_symmetric(a: (int, int, int), b: (int, int, int))
    ensures
        cube_distance(a, b) == cube_distance(b, a),
{
}

/// On valid triples the sum of the absolute componentwise differences is
/// even, so halving it in the distance loses nothing.
proof fn lemma_abs_sum_even(a: (int, int, int), b: (int, int, int))
    requires
        cube_valid(a),
        cube_valid(b),
    ensures
        abs(a.0 - b.0) + abs(a.1 - b.1) + abs(a.2 - b.2) == 2 * cube_distance(a, b),
{
    let s: int = (abs(a.0 - b.0) + abs(a.1 - b.1) + abs(a.2 - b.2)) as int;
    assert(s % 2 == 0) by {
        let d0: int = a.0 - b.0;
        let d1: int = a.1 - b.1;
        let d2: int = a.2 - b.2;
        assert(d0 + d1 + d2 == 0);
        assert(abs(d0) - d0 == 0 || abs(d0) - d0 == -2 * d0);
        assert(abs(d1) - d1 == 0 || abs(d1) - d1 == -2 * d1);
        assert(abs(d2) - d2 == 0 || abs(d2) - d2 == -2 * d2);
    };
    vstd::arithmetic::div_mod::lemma_fundamental_div_mod(s, 2);
}

/// Law: the distance between valid cube coordinates obeys the triangle
/// inequality.
pub proof fn lemma_distance_triangle(a: (int, int, int), b: (int, int, int), c: (int, int, int))
    requires
        cube_valid(a),
        cube_valid(b),
        cube_valid(c),
    ensures
        cube_distance(a, c) <= cube_distance(a, b) + cube_distance(b, c),
{
    lemma_abs_sum_even(a, b);
    lemma_abs_sum_even(b, c);
    lemma_abs_sum_even(a, c);
    assert(abs(a.0 - c.0) <= abs(a.0 - b.0) + abs(b.0 - c.0));
    assert(abs(a.1 - c.1) <= abs(a.1 - b.1) + abs(b.1 - c.1));
    assert(abs(a.2 - c.2) <= abs(a.2 - b.2) + abs(b.2 - c.2));
}

} // verus!
