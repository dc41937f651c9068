//! The four directions of movement and their unit vectors.
use vstd::prelude::*;

use crate::utils::Coord;

verus! {

/// A direction of movement on the grid. `y` grows downwards.
#[derive(Clone, Copy, Debug, PartialEq, Eq, Structural)]
pub enum Direction {
    Up,
    Down,
    Left,
    Right,
}

/// The unit vector of a direction.
pub open spec fn vector_of(d: Direction) -> Coord {
    match d {
        Direction::Up => Coord { x: 0, y: -1i32 },
        Direction::Down => Coord { x: 0, y: 1 },
        Direction::Left => Coord { x: -1i32, y: 0 },
        Direction::Right => Coord { x: 1, y: 0 },
    }
}

/// Whether `v` is the unit vector of one of the four directions.
pub open spec fn is_unit_vector(v: Coord) -> bool {
    exists|d: Direction| vector_of(d) == v
}

/// The direction whose unit vector is `v`.
pub open spec fn direction_of(v: Coord) -> Direction
    recommends
        is_unit_vector(v),
{
    if v.x == 0 && v.y == -1 {
        Direction::Up
    } else if v.x == 0 && v.y == 1 {
        Direction::Down
    } else if v.x == -1 && v.y == 0 {
        Direction::Left
    } else {
        Direction::Right
    }
}

/// The dot product of two vectors.
pub open spec fn dot(a: Coord, b: Coord) -> int {
    a.x * b.x + a.y * b.y
}

/// Whether a turn from `a` to `b` is a quarter turn: their vectors are
/// perpendicular.
pub open spec fn orthogonal(a: Direction, b: Direction) -> bool {
    dot(vector_of(a), vector_of(b)) == 0
}

/// The direction pointing the other way.
pub open spec fn opposite_of(d: Direction) -> Direction {
    match d {
        Direction::Up => Direction::Down,
        Direction::Down => Direction::Up,
        Direction::Left => Direction::Right,
        Direction::Right => Direction::Left,
    }
}

/// The direction a quarter turn clockwise (with `y` growing downwards).
pub open spec fn clockwise_of(d: Direction) -> Direction {
    match d {
        Direction::Up => Direction::Right,
        Direction::Right => Direction::Down,
        Direction::Down => Direction::Left,
        Direction::Left => Direction::Up,
    }
}

impl Direction {
    /// The unit vector of this direction.
    pub fn to_vector(self) -> (v: Coord)
        ensures
            v == vector_of(self),
    {
        match self {
            Direction::Up => Coord { x: 0, y: -1 },
            Direction::Down => Coord { x: 0, y: 1 },
            Direction::Left => Coord { x: -1, y: 0 },
            Direction::Right => Coord { x: 1, y: 0 },
        }
    }

    /// The direction whose unit vector is `v`. Any other vector is a
    /// programming error and is ruled out by the precondition.
    pub fn from_vector(v: Coord) -> (d: Direction)
        requires
            is_unit_vector(v),
        ensures
            vector_of(d) == v,
            d == direction_of(v),
    {
        if v.x == 0 && v.y == -1 {
            Direction::Up
        } else if v.x == 0 && v.y == 1 {
            Direction::Down
        } else if v.x == -1 && v.y == 0 {
            Direction::Left
        } else {
            Direction::Right
        }
    }

    /// The direction pointing the other way.
    pub fn opposite(self) -> (d: Direction)
        ensures
            d == opposite_of(self),
    {
        match self {
            Direction::Up => Direction::Down,
            Direction::Down => Direction::Up,
            Direction::Left => Direction::Right,
            Direction::Right => Direction::Left,
        }
    }

    /// Whether the vectors of `self` and `other` have a zero dot product,
    /// the one test of a legal turn.
    pub fn is_orthogonal(self, other: Direction) -> (r: bool)
        ensures
            r == orthogonal(self, other),
    {
        let a = self.to_vector();
        let b = other.to_vector();
        a.x * b.x + a.y * b.y == 0
    }
}

impl From<Direction> for Coord {
    fn from(d: Direction) -> (v: Coord) {
        d.to_vector()
    }
}

impl vstd::std_specs::convert::FromSpecImpl<Direction> for Coord {
    open spec fn obeys_from_spec() -> bool {
        true
    }

    open spec fn from_spec(d: Direction) -> Coord {
        vector_of(d)
    }
}

/// Converting a direction to its vector and back gives the direction again.
pub proof fn lemma_vector_round_trip(d: Direction)
    ensures
        is_unit_vector(vector_of(d)),
        direction_of(vector_of(d)) == d,
{
}

/// A direction is never orthogonal to itself nor to its opposite, and is
/// orthogonal to both directions a quarter turn away; these are all the
/// cases, so a turn is legal exactly when it is neither a repeat nor a
/// reversal.
pub proof fn lemma_orthogonal_turns(a: Direction, b: Direction)
    ensures
        !orthogonal(a, a),
        !orthogonal(a, opposite_of(a)),
        orthogonal(a, clockwise_of(a)),
        orthogonal(clockwise_of(a), a),
        orthogonal(a, opposite_of(clockwise_of(a))),
        orthogonal(a, b) <==> (b != a && b != opposite_of(a)),
{
}

} // verus!
