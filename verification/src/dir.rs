//! Directions and movement over an integer grid.

use vstd::prelude::*;

use crate::pos::Position;

verus! {

/// Something that can move a grid position: it contributes a fixed step
/// vector (its kernel) that is added to the current position.
pub trait Movement: Copy {
    /// The step this movement takes.
    spec fn spec_kernel(&self) -> Position;

    /// The step this movement takes.
    fn get_kernel(&self) -> (p: Position)
        ensures
            p == self.spec_kernel(),
    ;
}

/// The four cardinal directions.  North is negative `y`, as positions name
/// indices into rows-from-the-top grids.
#[derive(Debug, Clone, Copy, PartialEq, Eq, Hash, PartialOrd, Ord, Structural)]
pub enum Direction {
    North,
    South,
    East,
    West,
}

/// The direction looking back.
pub open spec fn spec_opposite(d: Direction) -> Direction {
    match d {
        Direction::North => Direction::South,
        Direction::South => Direction::North,
        Direction::East => Direction::West,
        Direction::West => Direction::East,
    }
}

/// The direction after a quarter turn.
pub open spec fn spec_ninety_deg(d: Direction, clockwise: bool) -> Direction {
    match d {
        Direction::North => if clockwise {
            Direction::East
        } else {
            Direction::West
        },
        Direction::South => if clockwise {
            Direction::West
        } else {
            Direction::East
        },
        Direction::East => if clockwise {
            Direction::South
        } else {
            Direction::North
        },
        Direction::West => if clockwise {
            Direction::North
        } else {
            Direction::South
        },
    }
}

/// The unit step of a direction.
pub open spec fn spec_dir_kernel(d: Direction) -> Position {
    match d {
        Direction::North => Position { x: 0isize, y: -1isize },
        Direction::South => Position { x: 0isize, y: 1isize },
        Direction::East => Position { x: 1isize, y: 0isize },
        Direction::West => Position { x: -1isize, y: 0isize },
    }
}

/// Whether `p` is the unit step of some cardinal direction.
pub open spec fn is_cardinal_kernel(p: Position) -> bool {
    (p.x == 0 && (p.y == -1 || p.y == 1)) || (p.y == 0 && (p.x == -1 || p.x == 1))
}

impl Direction {
    /// The direction that is opposite to this one.
    pub fn opposite(&self) -> (r: Self)
        ensures
            r == spec_opposite(*self),
    {
        match self {
            Self::North => Self::South,
            Self::South => Self::North,
            Self::East => Self::West,
            Self::West => Self::East,
        }
    }

    /// The direction a quarter turn away, clockwise or counter-clockwise.
    pub fn ninety_deg(&self, clockwise: bool) -> (r: Self)
        ensures
            r == spec_ninety_deg(*self, clockwise),
    {
        match (self, clockwise) {
            (Self::North, true) => Self::East,
            (Self::North, false) => Self::West,
            (Self::South, true) => Self::West,
            (Self::South, false) => Self::East,
            (Self::East, true) => Self::South,
            (Self::East, false) => Self::North,
            (Self::West, true) => Self::North,
            (Self::West, false) => Self::South,
        }
    }

    /// The direction whose unit step is `p`.
    pub fn from_kernel(p: Position) -> (d: Self)
        requires
            is_cardinal_kernel(p),
        ensures
            spec_dir_kernel(d) == p,
    {
        if p.x == 0 {
            if p.y == -1 {
                Self::North
            } else {
                Self::South
            }
        } else {
            if p.x == 1 {
                Self::East
            } else {
                Self::West
            }
        }
    }
}

impl Movement for Direction {
    open spec fn spec_kernel(&self) -> Position {
        spec_dir_kernel(*self)
    }

    fn get_kernel(&self) -> (p: Position)
        ensures
            p == self.spec_kernel(),
    {
        match self {
            Direction::North => Position { x: 0, y: -1 },
            Direction::South => Position { x: 0, y: 1 },
            Direction::East => Position { x: 1, y: 0 },
            Direction::West => Position { x: -1, y: 0 },
        }
    }
}


/// The cardinal directions as a sequence, in the order north, south, east,
/// west.
pub open spec fn cardinal_seq() -> Seq<Direction> {
    seq![Direction::North, Direction::South, Direction::East, Direction::West]
}

/// The four cardinal directions, in the order north, south, east, west.
pub fn cardinals() -> (v: Vec<Direction>)
    ensures
        v@ =~= cardinal_seq(),
{
    let mut v: Vec<Direction> = Vec::new();
    v.push(Direction::North);
    v.push(Direction::South);
    v.push(Direction::East);
    v.push(Direction::West);
    v
}

} // verus!
