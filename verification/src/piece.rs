use vstd::prelude::*;

use rand::Rng;

use crate::constants::{COORD_LIMIT, SUBUNITS, VEL_LIMIT};
use crate::position::{spec_cell_position, Position};
use crate::types::{GridPosition, Vec2};

verus! {

#[derive(Debug, Copy, Clone, PartialEq, Eq, Structural)]
pub enum PieceType {
    IShape,
    LShape,
    LShapeInverted,
    RShape,
    RShapeInverted,
    OShape,
    TShape,
}

/// The rotation state of a piece, cycling East -> South -> West -> North
/// when turning clockwise.
#[derive(Debug, Copy, Clone, PartialEq, Eq, Structural)]
pub enum Direction {
    East,
    South,
    West,
    North,
}

/// A single placed cell: the piece kind it came from and where it sits.
#[derive(Debug, Copy, Clone)]
pub struct Block {
    pub piece_type: PieceType,
    pub pos: Position,
}

impl Block {
    pub fn from_piece(p: &Piece, pos: Position) -> (b: Block)
        ensures
            b.piece_type == p.piece_type,
            b.pos == pos,
    {
        Block { piece_type: p.piece_type, pos }
    }
}

/// The `i`-th relative cell offset of a piece kind, in its default facing.
pub open spec fn spec_offset(t: PieceType, i: int) -> (int, int) {
    match t {
        PieceType::IShape => if i == 0 { (-1, 0) } else if i == 1 { (0, 0) } else if i == 2 { (1, 0) } else { (2, 0) },
        PieceType::OShape => if i == 0 { (0, 0) } else if i == 1 { (0, -1) } else if i == 2 { (1, 0) } else { (1, -1) },
        PieceType::LShape => if i == 0 { (-1, 0) } else if i == 1 { (0, 0) } else if i == 2 { (1, 0) } else { (1, -1) },
        PieceType::LShapeInverted => if i == 0 { (-1, 0) } else if i == 1 { (0, 0) } else if i == 2 { (1, 0) } else { (1, 1) },
        PieceType::RShape => if i == 0 { (1, 0) } else if i == 1 { (0, 0) } else if i == 2 { (0, -1) } else { (-1, -1) },
        PieceType::RShapeInverted => if i == 0 { (-1, 0) } else if i == 1 { (0, 0) } else if i == 2 { (0, -1) } else { (1, -1) },
        PieceType::TShape => if i == 0 { (-1, 0) } else if i == 1 { (0, 0) } else if i == 2 { (1, 0) } else { (0, -1) },
    }
}

/// The facing after one clockwise turn; the O piece never turns.
pub open spec fn spec_rotate_cw(t: PieceType, f: Direction) -> Direction {
    match t {
        PieceType::OShape => f,
        _ => match f {
            Direction::East => Direction::South,
            Direction::South => Direction::West,
            Direction::West => Direction::North,
            Direction::North => Direction::East,
        },
    }
}

/// The facing after one counterclockwise turn; the O piece never turns.
pub open spec fn spec_rotate_ccw(t: PieceType, f: Direction) -> Direction {
    match t {
        PieceType::OShape => f,
        _ => match f {
            Direction::East => Direction::North,
            Direction::South => Direction::East,
            Direction::West => Direction::South,
            Direction::North => Direction::West,
        },
    }
}

/// A relative offset turned by the rotation a facing stands for:
/// 0, -90, -180 or -270 degrees in screen coordinates.
pub open spec fn spec_rot_offset(f: Direction, off: (int, int)) -> (int, int) {
    match f {
        Direction::East => off,
        Direction::South => (off.1, -off.0),
        Direction::West => (-off.0, -off.1),
        Direction::North => (-off.1, off.0),
    }
}

/// The continuous point of one block of a piece: the anchor plus the
/// rotated offset, scaled to subunits.
pub open spec fn spec_block_point(x: int, y: int, f: Direction, off: (int, int)) -> (int, int) {
    let r = spec_rot_offset(f, off);
    (x + SUBUNITS * r.0, y + SUBUNITS * r.1)
}

/// Anchors keep this margin to the coordinate range, so that block
/// positions (at most two cells away) stay in range.
pub open spec fn in_anchor_range(v: int) -> bool {
    -(COORD_LIMIT - 4 * SUBUNITS) <= v && v <= COORD_LIMIT - 4 * SUBUNITS
}

/// A falling piece: kind, anchor position, facing, downward velocity
/// (subunits per frame), and its fixed relative block offsets.
#[derive(Debug, Copy, Clone)]
pub struct Piece {
    pub piece_type: PieceType,
    pub pos: Position,
    pub facing: Direction,
    pub velocity: Vec2,
    pub landed: bool,
    pub block_positions: [GridPosition; 4],
}

impl Piece {
    pub open spec fn wf(self) -> bool {
        &&& self.pos.wf()
        &&& in_anchor_range(self.pos.x())
        &&& in_anchor_range(self.pos.y())
        &&& self.block_positions@.len() == 4
        &&& forall|i: int|
            0 <= i < 4 ==> ((#[trigger] self.block_positions@[i]).x as int,
            self.block_positions@[i].y as int) == spec_offset(self.piece_type, i)
        &&& self.velocity.x == 0
        &&& 0 <= self.velocity.y <= VEL_LIMIT
    }

    pub fn rotate_cw(&mut self)
        ensures
            final(self).facing == spec_rotate_cw(old(self).piece_type, old(self).facing),
            final(self).piece_type == old(self).piece_type,
            final(self).pos == old(self).pos,
            final(self).velocity == old(self).velocity,
            final(self).landed == old(self).landed,
            final(self).block_positions == old(self).block_positions,
    {
        self.facing = match self.piece_type {
            PieceType::OShape => self.facing,
            _ => match self.facing {
                Direction::East => Direction::South,
                Direction::South => Direction::West,
                Direction::West => Direction::North,
                Direction::North => Direction::East,
            },
        };
    }

    pub fn rotate_ccw(&mut self)
        ensures
            final(self).facing == spec_rotate_ccw(old(self).piece_type, old(self).facing),
            final(self).piece_type == old(self).piece_type,
            final(self).pos == old(self).pos,
            final(self).velocity == old(self).velocity,
            final(self).landed == old(self).landed,
            final(self).block_positions == old(self).block_positions,
    {
        self.facing = match self.piece_type {
            PieceType::OShape => self.facing,
            _ => match self.facing {
                Direction::East => Direction::North,
                Direction::South => Direction::East,
                Direction::West => Direction::South,
                Direction::North => Direction::West,
            },
        };
    }

    /// The world block a relative offset maps to, for a candidate anchor.
    pub fn block_position(&self, pos: &Position, rel_p: &GridPosition) -> (b: Block)
        requires
            pos.wf(),
            in_anchor_range(pos.x()),
            in_anchor_range(pos.y()),
            -4 <= rel_p.x <= 4,
            -4 <= rel_p.y <= 4,
        ensures
            b.piece_type == self.piece_type,
            b.pos.wf(),
            (b.pos.x(), b.pos.y()) == spec_block_point(
                pos.x(),
                pos.y(),
                self.facing,
                (rel_p.x as int, rel_p.y as int),
            ),
    {
        let (rx, ry): (i64, i64) = match self.facing {
            Direction::East => (rel_p.x, rel_p.y),
            Direction::South => (rel_p.y, -rel_p.x),
            Direction::West => (-rel_p.x, -rel_p.y),
            Direction::North => (-rel_p.y, rel_p.x),
        };
        Block {
            piece_type: self.piece_type,
            pos: Position::new(pos.xy.x + SUBUNITS * rx, pos.xy.y + SUBUNITS * ry),
        }
    }

    /// Every cell this piece occupies when anchored at `pos`: the single
    /// source of truth for collision tests, locking and drawing.
    pub fn get_blocks(&self, pos: &Position) -> (blocks: Vec<Block>)
        requires
            self.wf(),
            pos.wf(),
            in_anchor_range(pos.x()),
            in_anchor_range(pos.y()),
        ensures
            blocks@.len() == 4,
            forall|i: int|
                0 <= i < 4 ==> {
                    let b = #[trigger] blocks@[i];
                    &&& b.piece_type == self.piece_type
                    &&& b.pos.wf()
                    &&& (b.pos.x(), b.pos.y()) == spec_block_point(
                        pos.x(),
                        pos.y(),
                        self.facing,
                        spec_offset(self.piece_type, i),
                    )
                },
    {
        let mut blocks: Vec<Block> = Vec::new();
        let mut i: usize = 0;
        while i < 4
            invariant
                self.wf(),
                pos.wf(),
                in_anchor_range(pos.x()),
                in_anchor_range(pos.y()),
                i <= 4,
                blocks@.len() == i,
                forall|j: int|
                    0 <= j < i ==> {
                        let b = #[trigger] blocks@[j];
                        &&& b.piece_type == self.piece_type
                        &&& b.pos.wf()
                        &&& (b.pos.x(), b.pos.y()) == spec_block_point(
                            pos.x(),
                            pos.y(),
                            self.facing,
                            spec_offset(self.piece_type, j),
                        )
                    },
            decreases 4 - i,
        {
            let b = self.block_position(pos, &self.block_positions[i]);
            blocks.push(b);
            i = i + 1;
        }
        blocks
    }
}

fn get_block_positions(piece_type: PieceType) -> (v: [GridPosition; 4])
    ensures
        forall|i: int|
            0 <= i < 4 ==> ((#[trigger] v@[i]).x as int, v@[i].y as int) == spec_offset(
                piece_type,
                i,
            ),
{
    match piece_type {
        PieceType::IShape => [
            GridPosition::new(-1, 0),
            GridPosition::new(0, 0),
            GridPosition::new(1, 0),
            GridPosition::new(2, 0),
        ],
        PieceType::OShape => [
            GridPosition::new(0, 0),
            GridPosition::new(0, -1),
            GridPosition::new(1, 0),
            GridPosition::new(1, -1),
        ],
        PieceType::LShape => [
            GridPosition::new(-1, 0),
            GridPosition::new(0, 0),
            GridPosition::new(1, 0),
            GridPosition::new(1, -1),
        ],
        PieceType::LShapeInverted => [
            GridPosition::new(-1, 0),
            GridPosition::new(0, 0),
            GridPosition::new(1, 0),
            GridPosition::new(1, 1),
        ],
        PieceType::RShape => [
            GridPosition::new(1, 0),
            GridPosition::new(0, 0),
            GridPosition::new(0, -1),
            GridPosition::new(-1, -1),
        ],
        PieceType::RShapeInverted => [
            GridPosition::new(-1, 0),
            GridPosition::new(0, 0),
            GridPosition::new(0, -1),
            GridPosition::new(1, -1),
        ],
        PieceType::TShape => [
            GridPosition::new(-1, 0),
            GridPosition::new(0, 0),
            GridPosition::new(1, 0),
            GridPosition::new(0, -1),
        ],
    }
}

/// Relies on rand::Rng::gen_range on the thread-local generator: a value
/// drawn uniformly from the given non-empty range.
#[verifier::external_body]
fn random_piece_index() -> (r: u32)
    ensures
        r < 7,
{
    let mut rng = rand::thread_rng();
    rng.gen_range(0..7)
}

/// A freshly spawned piece: a random kind, anchored at column 4 / row 1,
/// facing North, not landed, falling at the given speed.
pub fn create_random_piece(velocity: i64) -> (p: Piece)
    requires
        0 <= velocity <= VEL_LIMIT,
    ensures
        p.wf(),
        p.facing == Direction::North,
        p.pos == spec_cell_position(4, 1),
        p.landed == false,
        p.velocity.x == 0,
        p.velocity.y == velocity,
{
    let r0 = random_piece_index();
    let piece_type = match r0 {
        0 => PieceType::IShape,
        1 => PieceType::LShape,
        2 => PieceType::LShapeInverted,
        3 => PieceType::RShape,
        4 => PieceType::RShapeInverted,
        5 => PieceType::OShape,
        _ => PieceType::TShape,
    };

    Piece {
        piece_type,
        pos: Position::from_grid_position(GridPosition::new(4, 1)),
        facing: Direction::North,
        landed: false,
        velocity: Vec2::new(0, velocity),
        block_positions: get_block_positions(piece_type),
    }
}

} // verus!
