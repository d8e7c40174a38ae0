//! The compass bucket a tilted board points toward, and its coupling to the
//! annunciator output index.

use vstd::prelude::*;

verus! {

/// One of the eight compass buckets for a tilted board.
///
/// The ordinal position of each variant corresponds one-to-one to an
/// annunciator output index in `0..8`; that coupling is made explicit by
/// [`Direction::index`] rather than left to the enum's memory layout.
#[derive(Clone, Copy, Debug, PartialEq, Eq, Structural)]
pub enum Direction {
    North,
    NorthEast,
    East,
    SouthEast,
    South,
    SouthWest,
    West,
    NorthWest,
}

impl Direction {
    /// The annunciator output index this direction maps to.
    pub open spec fn index_spec(self) -> int {
        match self {
            Direction::North => 0,
            Direction::NorthEast => 1,
            Direction::East => 2,
            Direction::SouthEast => 3,
            Direction::South => 4,
            Direction::SouthWest => 5,
            Direction::West => 6,
            Direction::NorthWest => 7,
        }
    }

    /// Total mapping from a direction to the annunciator output index that
    /// must be driven when the board tilts that way.
    pub fn index(self) -> (r: usize)
        ensures
            r == self.index_spec(),
            r < 8,
    {
        match self {
            Direction::North => 0,
            Direction::NorthEast => 1,
            Direction::East => 2,
            Direction::SouthEast => 3,
            Direction::South => 4,
            Direction::SouthWest => 5,
            Direction::West => 6,
            Direction::NorthWest => 7,
        }
    }

    /// The direction whose output index is `i`.
    pub open spec fn from_index_spec(i: int) -> Direction {
        if i == 0 {
            Direction::North
        } else if i == 1 {
            Direction::NorthEast
        } else if i == 2 {
            Direction::East
        } else if i == 3 {
            Direction::SouthEast
        } else if i == 4 {
            Direction::South
        } else if i == 5 {
            Direction::SouthWest
        } else if i == 6 {
            Direction::West
        } else {
            Direction::NorthWest
        }
    }

    /// Inverse of [`Direction::index`]: the direction shown on output `i`.
    pub fn from_index(i: usize) -> (r: Direction)
        requires
            i < 8,
        ensures
            r.index_spec() == i,
            r == Direction::from_index_spec(i as int),
    {
        if i == 0 {
            Direction::North
        } else if i == 1 {
            Direction::NorthEast
        } else if i == 2 {
            Direction::East
        } else if i == 3 {
            Direction::SouthEast
        } else if i == 4 {
            Direction::South
        } else if i == 5 {
            Direction::SouthWest
        } else if i == 6 {
            Direction::West
        } else {
            Direction::NorthWest
        }
    }
}

/// The direction-to-output mapping is total into `0..8` and injective, so
/// "exactly the output at index d on" is well defined for every direction.
pub proof fn lemma_direction_index_bijective(a: Direction, b: Direction)
    ensures
        0 <= a.index_spec() < 8,
        a.index_spec() == b.index_spec() ==> a == b,
        Direction::from_index_spec(a.index_spec()) == a,
{
}

} // verus!
