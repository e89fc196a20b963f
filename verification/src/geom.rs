//! Grid coordinates and the eight movement directions.

use vstd::prelude::*;

verus! {

/// A cell coordinate on the grid.  `x` grows to the right, `y` grows
/// downward; a coordinate is on a `w` by `h` grid when `0 <= x < w` and
/// `0 <= y < h`.
#[derive(Debug, Default, Clone, Copy, PartialEq, Eq, Structural)]
pub struct Vec2 {
    pub x: i32,
    pub y: i32,
}

impl Vec2 {
    /// True when the coordinate lies on a `w` by `h` grid.
    pub open spec fn spec_in_bounds(self, w: int, h: int) -> bool {
        0 <= self.x < w && 0 <= self.y < h
    }

    /// Componentwise sum of two coordinates.
    pub fn add(self, rhs: Vec2) -> (r: Vec2)
        requires
            i32::MIN <= self.x + rhs.x <= i32::MAX,
            i32::MIN <= self.y + rhs.y <= i32::MAX,
        ensures
            r.x == self.x + rhs.x,
            r.y == self.y + rhs.y,
    {
        Vec2 { x: self.x + rhs.x, y: self.y + rhs.y }
    }

    /// Runtime bounds check, equal to [`Vec2::spec_in_bounds`].
    pub fn in_bounds(self, w: i32, h: i32) -> (r: bool)
        ensures
            r == self.spec_in_bounds(w as int, h as int),
    {
        0 <= self.x && self.x < w && 0 <= self.y && self.y < h
    }
}

/// The sign of `v`: `-1`, `0` or `1`.
pub open spec fn spec_sign(v: int) -> int {
    if v < 0 {
        -1
    } else if v > 0 {
        1
    } else {
        0
    }
}

/// Clamps `v` into `[lo, hi]`; callers keep `lo <= hi`.
pub open spec fn spec_clamp(lo: int, v: int, hi: int) -> int {
    if v < lo {
        lo
    } else if v > hi {
        hi
    } else {
        v
    }
}

/// One of the eight one-cell movement directions.
#[derive(Debug, Clone, Copy, PartialEq, Eq, Structural)]
pub enum Direction {
    Left,
    Right,
    Down,
    Up,
    UpLeft,
    UpRight,
    DownLeft,
    DownRight,
}

/// The unit offset of a direction, each component in `{-1, 0, 1}`.
pub open spec fn direction_offset(d: Direction) -> Vec2 {
    match d {
        Direction::Left => Vec2 { x: -1i32, y: 0 },
        Direction::Right => Vec2 { x: 1, y: 0 },
        Direction::Down => Vec2 { x: 0, y: 1 },
        Direction::Up => Vec2 { x: 0, y: -1i32 },
        Direction::UpLeft => Vec2 { x: -1i32, y: -1i32 },
        Direction::UpRight => Vec2 { x: 1, y: -1i32 },
        Direction::DownLeft => Vec2 { x: -1i32, y: 1 },
        Direction::DownRight => Vec2 { x: 1, y: 1 },
    }
}

impl Direction {
    /// The unit offset of this direction.
    pub fn to_vec2(&self) -> (r: Vec2)
        ensures
            r == direction_offset(*self),
    {
        match self {
            Direction::Left => Vec2 { x: -1, y: 0 },
            Direction::Right => Vec2 { x: 1, y: 0 },
            Direction::Down => Vec2 { x: 0, y: 1 },
            Direction::Up => Vec2 { x: 0, y: -1 },
            Direction::UpLeft => Vec2 { x: -1, y: -1 },
            Direction::UpRight => Vec2 { x: 1, y: -1 },
            Direction::DownLeft => Vec2 { x: -1, y: 1 },
            Direction::DownRight => Vec2 { x: 1, y: 1 },
        }
    }
}

} // verus!
