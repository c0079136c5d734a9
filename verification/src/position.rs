use vstd::prelude::*;

use crate::constants::{COORD_LIMIT, HALF_CELL, SUBUNITS};
use crate::types::{GridPosition, Point2};

verus! {

/// Continuous coordinates the simulation works with stay in this range,
/// so that no computation on them can overflow.
pub open spec fn in_coord_range(v: int) -> bool {
    -COORD_LIMIT <= v && v <= COORD_LIMIT
}

/// The cell a continuous coordinate falls in: rounding to the nearest
/// whole cell, with halves rounded away from zero.
pub open spec fn spec_round_to_cell(v: int) -> int {
    if v >= 0 {
        (v + HALF_CELL) / (SUBUNITS as int)
    } else {
        -((HALF_CELL - v) / (SUBUNITS as int))
    }
}

/// The vertical coordinate after one downward step: one cell down,
/// then snapped to the floor of the result.
pub open spec fn spec_move_down_y(y: int) -> int {
    (y / (SUBUNITS as int) + 1) * (SUBUNITS as int)
}

fn round_to_cell(v: i64) -> (r: i64)
    requires
        in_coord_range(v as int),
    ensures
        r as int == spec_round_to_cell(v as int),
{
    if v >= 0 {
        (v + HALF_CELL) / SUBUNITS
    } else {
        -((HALF_CELL - v) / SUBUNITS)
    }
}

/// A continuous position together with the cell it rounds to.
#[derive(Debug, Copy, Clone)]
pub struct Position {
    pub xy: Point2,
    pub grid_pos: GridPosition,
}

/// The position whose continuous coordinates sit exactly on the cell
/// (column `c`, row `r`).
pub open spec fn spec_cell_position(c: int, r: int) -> Position {
    Position {
        xy: Point2 { x: (c * SUBUNITS) as i64, y: (r * SUBUNITS) as i64 },
        grid_pos: GridPosition { x: c as i64, y: r as i64 },
    }
}

/// Rounding a coordinate that sits exactly on a cell gives that cell.
pub proof fn lemma_round_exact(c: int)
    ensures
        spec_round_to_cell(c * SUBUNITS) == c,
{
    if c >= 0 {
        assert((c * SUBUNITS + HALF_CELL) / (SUBUNITS as int) == c) by (nonlinear_arith);
    } else {
        assert((HALF_CELL - c * SUBUNITS) / (SUBUNITS as int) == -c) by (nonlinear_arith);
    }
}

impl Position {
    pub open spec fn x(self) -> int {
        self.xy.x as int
    }

    pub open spec fn y(self) -> int {
        self.xy.y as int
    }

    /// The cached cell is always the rounding of the continuous point.
    pub open spec fn wf(self) -> bool {
        &&& in_coord_range(self.x())
        &&& in_coord_range(self.y())
        &&& self.grid_pos.x == spec_round_to_cell(self.x())
        &&& self.grid_pos.y == spec_round_to_cell(self.y())
    }

    pub fn new(x: i64, y: i64) -> (p: Position)
        requires
            in_coord_range(x as int),
            in_coord_range(y as int),
        ensures
            p.wf(),
            p.x() == x,
            p.y() == y,
    {
        let p = Point2::new(x, y);
        Position { xy: p, grid_pos: GridPosition::new(round_to_cell(x), round_to_cell(y)) }
    }

    pub fn from_point(p: Point2) -> (r: Position)
        requires
            in_coord_range(p.x as int),
            in_coord_range(p.y as int),
        ensures
            r.wf(),
            r.x() == p.x,
            r.y() == p.y,
    {
        Position::new(p.x, p.y)
    }

    pub fn from_grid_position(g: GridPosition) -> (p: Position)
        requires
            in_coord_range(g.x * SUBUNITS),
            in_coord_range(g.y * SUBUNITS),
        ensures
            p == spec_cell_position(g.x as int, g.y as int),
            p.wf(),
            p.x() == g.x * SUBUNITS,
            p.y() == g.y * SUBUNITS,
    {
        proof {
            lemma_round_exact(g.x as int);
            lemma_round_exact(g.y as int);
        }
        let x = g.x * SUBUNITS;
        let y = g.y * SUBUNITS;
        Position { xy: Point2::new(x, y), grid_pos: GridPosition::new(g.x, g.y) }
    }

    pub fn grid_position(&self) -> (g: GridPosition)
        ensures
            g == self.grid_pos,
    {
        self.grid_pos
    }

    pub fn absolute_position(&self) -> (p: Point2)
        ensures
            p == self.xy,
    {
        self.xy
    }

    pub fn move_left(&self) -> (p: Position)
        requires
            self.wf(),
            self.x() - SUBUNITS >= -COORD_LIMIT,
        ensures
            p.wf(),
            p.x() == self.x() - SUBUNITS,
            p.y() == self.y(),
    {
        Position::new(self.xy.x - SUBUNITS, self.xy.y)
    }

    pub fn move_right(&self) -> (p: Position)
        requires
            self.wf(),
            self.x() + SUBUNITS <= COORD_LIMIT,
        ensures
            p.wf(),
            p.x() == self.x() + SUBUNITS,
            p.y() == self.y(),
    {
        Position::new(self.xy.x + SUBUNITS, self.xy.y)
    }

    pub fn move_down(&self) -> (p: Position)
        requires
            self.wf(),
            self.y() + SUBUNITS <= COORD_LIMIT,
        ensures
            p.wf(),
            p.x() == self.x(),
            p.y() == spec_move_down_y(self.y()),
    {
        let floor = if self.xy.y >= 0 {
            self.xy.y / SUBUNITS
        } else {
            -((SUBUNITS - 1 - self.xy.y) / SUBUNITS)
        };
        assert(floor == self.y() / (SUBUNITS as int)) by {
            if self.xy.y < 0 {
                assert((SUBUNITS - 1 - self.y()) / (SUBUNITS as int) == -(self.y() / (
                SUBUNITS as int))) by (nonlinear_arith);
            }
        };
        Position::new(self.xy.x, (floor + 1) * SUBUNITS)
    }
}

impl PartialEq for Position {
    /// Two positions are the same when they fall in the same cell.
    fn eq(&self, other: &Position) -> bool {
        self.grid_pos.x == other.grid_pos.x && self.grid_pos.y == other.grid_pos.y
    }
}

impl vstd::std_specs::cmp::PartialEqSpecImpl for Position {
    open spec fn obeys_eq_spec() -> bool {
        true
    }

    open spec fn eq_spec(&self, other: &Position) -> bool {
        self.grid_pos == other.grid_pos
    }
}

} // verus!
