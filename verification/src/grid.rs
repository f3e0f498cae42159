//! Grid coordinates, headings and the keys that steer.
//!
//! The play field is an unbounded grid of square cells. A cell is named by a
//! pair of integers; `x` grows to the right and `y` grows downwards.

use vstd::prelude::*;

verus! {

/// A pair of integers: a cell of the grid, or a size in pixels.
#[derive(Clone, Copy, Debug, PartialEq, Eq, Structural)]
pub struct Vec2i {
    pub x: i32,
    pub y: i32,
}

/// One of the four headings a snake can have.
#[derive(Clone, Copy, Debug, PartialEq, Eq, Structural)]
pub enum Direction {
    Up,
    Down,
    Left,
    Right,
}

/// The keys that are held down while a frame is processed.
#[derive(Clone, Copy, Debug, PartialEq, Eq, Structural)]
pub struct Keys {
    pub up: bool,
    pub down: bool,
    pub left: bool,
    pub right: bool,
    pub space: bool,
}

impl Direction {
    /// The heading that points the other way: `Up` and `Down` are opposite,
    /// and so are `Left` and `Right`.
    pub open spec fn opposite(self) -> Direction {
        match self {
            Direction::Up => Direction::Down,
            Direction::Down => Direction::Up,
            Direction::Left => Direction::Right,
            Direction::Right => Direction::Left,
        }
    }

    /// The change of `x` when moving one cell along this heading.
    pub open spec fn dx(self) -> int {
        match self {
            Direction::Left => -1,
            Direction::Right => 1,
            _ => 0,
        }
    }

    /// The change of `y` when moving one cell along this heading.
    pub open spec fn dy(self) -> int {
        match self {
            Direction::Up => -1,
            Direction::Down => 1,
            _ => 0,
        }
    }

    /// The heading after the held keys have been taken into account.
    ///
    /// The keys are tried in the order right, down, left, up. The first one
    /// that is held and does not ask for the opposite of the current heading
    /// wins; when none qualifies the heading stays as it is.
    pub open spec fn steered(self, keys: Keys) -> Direction {
        if keys.right && self != Direction::Left {
            Direction::Right
        } else if keys.down && self != Direction::Up {
            Direction::Down
        } else if keys.left && self != Direction::Right {
            Direction::Left
        } else if keys.up && self != Direction::Down {
            Direction::Up
        } else {
            self
        }
    }

    /// Computes [`Direction::opposite`].
    pub fn reverse(self) -> (r: Direction)
        ensures
            r == self.opposite(),
    {
        match self {
            Direction::Up => Direction::Down,
            Direction::Down => Direction::Up,
            Direction::Left => Direction::Right,
            Direction::Right => Direction::Left,
        }
    }

    /// Computes [`Direction::steered`]. Whatever is held, the result is never
    /// the opposite of the heading it started from.
    pub fn steer(self, keys: Keys) -> (r: Direction)
        ensures
            r == self.steered(keys),
            r != self.opposite(),
            r != self ==> (match r {
                Direction::Up => keys.up,
                Direction::Down => keys.down,
                Direction::Left => keys.left,
                Direction::Right => keys.right,
            }),
    {
        if keys.right && self != Direction::Left {
            Direction::Right
        } else if keys.down && self != Direction::Up {
            Direction::Down
        } else if keys.left && self != Direction::Right {
            Direction::Left
        } else if keys.up && self != Direction::Down {
            Direction::Up
        } else {
            self
        }
    }
}

impl Keys {
    /// No key held.
    pub fn none() -> (k: Keys)
        ensures
            !k.up && !k.down && !k.left && !k.right && !k.space,
    {
        Keys { up: false, down: false, left: false, right: false, space: false }
    }
}

impl Vec2i {
    /// Whether the neighbouring cell along `d` can still be named with `i32`
    /// coordinates.
    pub open spec fn can_step(self, d: Direction) -> bool {
        &&& i32::MIN <= self.x + d.dx() <= i32::MAX
        &&& i32::MIN <= self.y + d.dy() <= i32::MAX
    }

    /// The neighbouring cell along `d`.
    pub open spec fn moved(self, d: Direction) -> Vec2i
        recommends
            self.can_step(d),
    {
        Vec2i { x: (self.x + d.dx()) as i32, y: (self.y + d.dy()) as i32 }
    }

    /// Computes [`Vec2i::can_step`].
    pub fn has_room(self, d: Direction) -> (ok: bool)
        ensures
            ok == self.can_step(d),
    {
        match d {
            Direction::Up => self.y > i32::MIN,
            Direction::Down => self.y < i32::MAX,
            Direction::Left => self.x > i32::MIN,
            Direction::Right => self.x < i32::MAX,
        }
    }

    /// Moves one cell along `d`: exactly one of the two coordinates changes,
    /// and it changes by one.
    pub fn step(self, d: Direction) -> (r: Vec2i)
        requires
            self.can_step(d),
        ensures
            r == self.moved(d),
            r.x == self.x + d.dx(),
            r.y == self.y + d.dy(),
    {
        match d {
            Direction::Up => Vec2i { x: self.x, y: self.y - 1 },
            Direction::Down => Vec2i { x: self.x, y: self.y + 1 },
            Direction::Left => Vec2i { x: self.x - 1, y: self.y },
            Direction::Right => Vec2i { x: self.x + 1, y: self.y },
        }
    }
}

} // verus!
