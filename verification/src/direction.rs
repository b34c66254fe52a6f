//! The walker's heading: one of the four cardinal directions, with rotation
//! and a unit-displacement mapping.

use vstd::prelude::*;

use crate::pos::Pos;

verus! {

/// A compass heading. Rotation is cyclic: North, East, South, West, North.
#[derive(Clone, Copy, PartialEq, Eq, Structural, Debug)]
pub enum Direction {
    North,
    East,
    South,
    West,
}

impl Direction {
    /// The heading one quarter turn clockwise of `self`.
    pub open spec fn spec_cw(self) -> Direction {
        match self {
            Direction::North => Direction::East,
            Direction::East => Direction::South,
            Direction::South => Direction::West,
            Direction::West => Direction::North,
        }
    }

    /// The heading one quarter turn counterclockwise of `self`.
    pub open spec fn spec_ccw(self) -> Direction {
        match self {
            Direction::North => Direction::West,
            Direction::East => Direction::North,
            Direction::South => Direction::East,
            Direction::West => Direction::South,
        }
    }

    /// The unit displacement of one step along `self`, as `(dx, dy)`.
    /// North decreases the row coordinate.
    pub open spec fn spec_shift(self) -> (int, int) {
        match self {
            Direction::North => (0int, -1int),
            Direction::East => (1int, 0int),
            Direction::South => (0int, 1int),
            Direction::West => (-1int, 0int),
        }
    }

    /// Rotate clockwise.
    pub fn cw(self) -> (r: Self)
        ensures
            r == self.spec_cw(),
    {
        match self {
            Direction::North => Direction::East,
            Direction::East => Direction::South,
            Direction::South => Direction::West,
            Direction::West => Direction::North,
        }
    }

    /// Rotate counterclockwise.
    pub fn ccw(self) -> (r: Self)
        ensures
            r == self.spec_ccw(),
    {
        match self {
            Direction::North => Direction::West,
            Direction::East => Direction::North,
            Direction::South => Direction::East,
            Direction::West => Direction::South,
        }
    }

    /// The unit displacement of one step along `self`, as a raw coordinate.
    pub fn to_shift(self) -> (r: Pos)
        ensures
            r.x as int == self.spec_shift().0,
            r.y as int == self.spec_shift().1,
    {
        match self {
            Direction::North => Pos::new(0, -1),
            Direction::East => Pos::new(1, 0),
            Direction::South => Pos::new(0, 1),
            Direction::West => Pos::new(-1, 0),
        }
    }
}

/// The rotations form a cyclic group of order four: a counterclockwise turn
/// followed by a clockwise turn is the identity, and so is the reverse, and
/// four clockwise turns return every heading to itself.
pub proof fn lemma_rotation_cycle(h: Direction)
    ensures
        h.spec_ccw().spec_cw() == h,
        h.spec_cw().spec_ccw() == h,
        h.spec_cw().spec_cw().spec_cw().spec_cw() == h,
{
}

} // verus!
