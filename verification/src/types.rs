use vstd::prelude::*;

verus! {

/// A continuous point, in subunits (see `constants::SUBUNITS`).
#[derive(Debug, Copy, Clone, PartialEq, Eq, Structural)]
pub struct Point2 {
    pub x: i64,
    pub y: i64,
}

impl Point2 {
    pub fn new(x: i64, y: i64) -> (p: Point2)
        ensures
            p.x == x,
            p.y == y,
    {
        Point2 { x, y }
    }
}

/// A velocity, in subunits per frame.
#[derive(Debug, Copy, Clone, PartialEq, Eq, Structural)]
pub struct Vec2 {
    pub x: i64,
    pub y: i64,
}

impl Vec2 {
    pub fn new(x: i64, y: i64) -> (v: Vec2)
        ensures
            v.x == x,
            v.y == y,
    {
        Vec2 { x, y }
    }
}

/// A discrete cell of the board: column `x`, row `y`.
#[derive(Debug, Copy, Clone, PartialEq, Eq, Structural)]
pub struct GridPosition {
    pub x: i64,
    pub y: i64,
}

impl GridPosition {
    pub fn new(x: i64, y: i64) -> (g: GridPosition)
        ensures
            g.x == x,
            g.y == y,
    {
        GridPosition { x, y }
    }
}

} // verus!
