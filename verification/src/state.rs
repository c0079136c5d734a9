use vstd::prelude::*;

use crate::constants::{
    BASE_SPEED, COLUMNS, HALF_CELL, INPUT_DELAY, MAX_GRAVITY, MOVEMENT_DELAY, ROWS,
    SPEED_PER_LEVEL, SUBUNITS, TIME_UNITS_PER_FRAME,
};
use crate::grid::{
    lemma_full_count_le, lemma_kept_from_props, lemma_no_full_rows_count, spec_cleared, GridState,
};
use crate::piece::{
    create_random_piece, in_anchor_range, spec_block_point, spec_offset, spec_rotate_ccw,
    spec_rotate_cw, spec_rot_offset, Block, Direction, Piece, PieceType,
};
use crate::position::{
    lemma_round_exact, spec_cell_position, spec_move_down_y, spec_round_to_cell, Position,
};
use crate::types::Vec2;
use std::collections::VecDeque;

verus! {

/// The actions held during the current tick, set by raw input events and
/// read once per tick by the simulation.
#[derive(Debug, Copy, Clone, PartialEq, Eq, Structural)]
pub struct InputState {
    pub left: bool,
    pub right: bool,
    pub down: bool,
    pub up: bool,
    pub rotate_right: bool,
    pub rotate_left: bool,
    pub hold: bool,
}

pub open spec fn spec_input_clear() -> InputState {
    InputState {
        left: false,
        right: false,
        down: false,
        up: false,
        rotate_right: false,
        rotate_left: false,
        hold: false,
    }
}

impl Default for InputState {
    fn default() -> (s: Self)
        ensures
            s == spec_input_clear(),
    {
        InputState {
            left: false,
            right: false,
            down: false,
            up: false,
            rotate_right: false,
            rotate_left: false,
            hold: false,
        }
    }
}

impl InputState {
    /// A discrete movement (left/right/soft drop) is being held.
    pub open spec fn spec_moved(self) -> bool {
        self.left || self.right || self.down
    }

    pub fn moved(&self) -> (r: bool)
        ensures
            r == self.spec_moved(),
    {
        self.left || self.right || self.down
    }

    /// A rotation or a hard drop is being held.
    pub open spec fn spec_acted(self) -> bool {
        self.up || self.rotate_left || self.rotate_right
    }

    pub fn acted(&self) -> (r: bool)
        ensures
            r == self.spec_acted(),
    {
        self.up || self.rotate_left || self.rotate_right
    }
}

/// The anchor of a piece that is in play: on or just around the board,
/// never above row 27 once rounded, never left of the spawn margin.
pub open spec fn spec_piece_in_play(p: Piece) -> bool {
    &&& -3 * SUBUNITS <= p.pos.x() <= 13 * SUBUNITS
    &&& 0 <= p.pos.y()
    &&& spec_round_to_cell(p.pos.y()) <= 27
}

/// A valid placement pins the anchor near the board: the second block of
/// every shape sits at most one cell from the anchor, and its cell must
/// be on the board horizontally and above the bottom edge.
pub proof fn lemma_valid_anchor_bounds(g: GridState, t: PieceType, f: Direction, x: int, y: int)
    requires
        g.spec_valid(t, f, x, y),
    ensures
        -2 * SUBUNITS < x < 11 * SUBUNITS,
        y < 25 * SUBUNITS,
        y % (SUBUNITS as int) == 0 && y >= 0 ==> y <= 24 * SUBUNITS,
{
    assert(g.spec_block_ok(t, f, x, y, 1));
    let off = spec_offset(t, 1);
    let rot = spec_rot_offset(f, off);
    let px = x + SUBUNITS * rot.0;
    let py = y + SUBUNITS * rot.1;
    assert(-1 <= rot.0 <= 1 && -1 <= rot.1 <= 1);
    assert(px >= -(HALF_CELL as int)) by {
        if px < -HALF_CELL {
            assert((HALF_CELL - px) / (SUBUNITS as int) >= 1);
        }
    };
    assert(px < 10 * SUBUNITS - HALF_CELL) by {
        if px >= 10 * SUBUNITS - HALF_CELL {
            assert((px + HALF_CELL) / (SUBUNITS as int) >= 10);
        }
    };
    assert(py < 24 * SUBUNITS - HALF_CELL) by {
        if py >= 24 * SUBUNITS - HALF_CELL {
            assert((py + HALF_CELL) / (SUBUNITS as int) >= 24);
        }
    };
    if y % (SUBUNITS as int) == 0 && y >= 0 {
        let m = y / (SUBUNITS as int);
        vstd::arithmetic::div_mod::lemma_fundamental_div_mod(y, SUBUNITS as int);
        assert(y == m * SUBUNITS);
        assert(py == (m + rot.1) * SUBUNITS);
        lemma_round_exact(m + rot.1);
        assert(m + rot.1 <= 23);
    }
}

/// The anchor after gravity alone: the vertical coordinate advances by
/// velocity times elapsed frames.
pub open spec fn spec_gravity_pos(p: Piece, dt: int) -> (int, int) {
    (p.pos.x(), p.pos.y() + p.velocity.y * dt)
}

pub open spec fn spec_try_left(g: GridState, t: PieceType, f: Direction, pos: (int, int)) -> (
    int,
    int,
) {
    if g.spec_valid(t, f, pos.0 - SUBUNITS, pos.1) {
        (pos.0 - SUBUNITS, pos.1)
    } else {
        pos
    }
}

pub open spec fn spec_try_right(g: GridState, t: PieceType, f: Direction, pos: (int, int)) -> (
    int,
    int,
) {
    if g.spec_valid(t, f, pos.0 + SUBUNITS, pos.1) {
        (pos.0 + SUBUNITS, pos.1)
    } else {
        pos
    }
}

pub open spec fn spec_try_down(g: GridState, t: PieceType, f: Direction, pos: (int, int)) -> (
    int,
    int,
) {
    if g.spec_valid(t, f, pos.0, spec_move_down_y(pos.1)) {
        (pos.0, spec_move_down_y(pos.1))
    } else {
        pos
    }
}

/// One held step in each direction, attempted left, then right, then
/// down, each applied only where the result is valid.
pub open spec fn spec_after_moves(
    g: GridState,
    t: PieceType,
    f: Direction,
    inp: InputState,
    pos: (int, int),
) -> (int, int) {
    let p1 = if inp.left {
        spec_try_left(g, t, f, pos)
    } else {
        pos
    };
    let p2 = if inp.right {
        spec_try_right(g, t, f, p1)
    } else {
        p1
    };
    if inp.down {
        spec_try_down(g, t, f, p2)
    } else {
        p2
    }
}

/// The anchor after gravity and, if the movement delay has expired, the
/// held discrete steps.
pub open spec fn spec_move_phase_pos(
    g: GridState,
    p: Piece,
    inp: InputState,
    now: int,
    last: int,
    dt: int,
) -> (int, int) {
    let p0 = spec_gravity_pos(p, dt);
    if now - last >= MOVEMENT_DELAY {
        spec_after_moves(g, p.piece_type, p.facing, inp, p0)
    } else {
        p0
    }
}

/// The action timer after the movement phase: reset when a held movement
/// was processed.
pub open spec fn spec_move_phase_last(inp: InputState, now: int, last: int) -> int {
    if now - last >= MOVEMENT_DELAY && inp.spec_moved() {
        now
    } else {
        last
    }
}

/// Rotations and hard drops run only when the longer input delay has
/// expired (measured after any movement reset).
pub open spec fn spec_action_phase_on(inp: InputState, now: int, last: int) -> bool {
    now - spec_move_phase_last(inp, now, last) >= INPUT_DELAY
}

/// The facing after the two rotation attempts: clockwise first, then
/// counterclockwise, each kept only where the rotated placement is valid.
pub open spec fn spec_rotations(
    g: GridState,
    t: PieceType,
    f0: Direction,
    inp: InputState,
    pos: (int, int),
) -> Direction {
    let f1 = if inp.rotate_right {
        let fr = spec_rotate_cw(t, f0);
        if g.spec_valid(t, fr, pos.0, pos.1) {
            fr
        } else {
            f0
        }
    } else {
        f0
    };
    if inp.rotate_left {
        let fl = spec_rotate_ccw(t, f1);
        if g.spec_valid(t, fl, pos.0, pos.1) {
            fl
        } else {
            f1
        }
    } else {
        f1
    }
}

/// The facing at the end of the tick: rotations run only in the action
/// phase.
pub open spec fn spec_tick_facing(
    g: GridState,
    p: Piece,
    inp: InputState,
    now: int,
    last: int,
    dt: int,
) -> Direction {
    if spec_action_phase_on(inp, now, last) {
        spec_rotations(
            g,
            p.piece_type,
            p.facing,
            inp,
            spec_move_phase_pos(g, p, inp, now, last, dt),
        )
    } else {
        p.facing
    }
}

/// Where a hard drop ends: the last anchor in the move-down chain whose
/// successor is invalid.
pub open spec fn spec_drop_y(g: GridState, t: PieceType, f: Direction, x: int, y: int) -> int
    decreases 27 * SUBUNITS - y,
        via spec_drop_y_dec
{
    let y2 = spec_move_down_y(y);
    if g.spec_valid(t, f, x, y2) {
        spec_drop_y(g, t, f, x, y2)
    } else {
        y
    }
}

/// How many valid one-row steps a hard drop takes.
pub open spec fn spec_drop_count(g: GridState, t: PieceType, f: Direction, x: int, y: int) -> int
    decreases 27 * SUBUNITS - y,
        via spec_drop_count_dec
{
    let y2 = spec_move_down_y(y);
    if g.spec_valid(t, f, x, y2) {
        1 + spec_drop_count(g, t, f, x, y2)
    } else {
        0
    }
}

proof fn lemma_drop_step(g: GridState, t: PieceType, f: Direction, x: int, y: int)
    requires
        g.spec_valid(t, f, x, spec_move_down_y(y)),
    ensures
        spec_move_down_y(y) > y,
        spec_move_down_y(y) <= 24 * SUBUNITS,
        27 * SUBUNITS - spec_move_down_y(y) >= 0,
{
    let y2 = spec_move_down_y(y);
    vstd::arithmetic::div_mod::lemma_fundamental_div_mod(y, SUBUNITS as int);
    assert(y2 > y);
    vstd::arithmetic::div_mod::lemma_mod_multiples_basic(
        y / (SUBUNITS as int) + 1,
        SUBUNITS as int,
    );
    assert(y2 % (SUBUNITS as int) == 0);
    if y2 >= 0 {
        lemma_valid_anchor_bounds(g, t, f, x, y2);
    }
}

#[via_fn]
proof fn spec_drop_y_dec(g: GridState, t: PieceType, f: Direction, x: int, y: int) {
    let y2 = spec_move_down_y(y);
    if g.spec_valid(t, f, x, y2) {
        lemma_drop_step(g, t, f, x, y);
    }
}

#[via_fn]
proof fn spec_drop_count_dec(g: GridState, t: PieceType, f: Direction, x: int, y: int) {
    let y2 = spec_move_down_y(y);
    if g.spec_valid(t, f, x, y2) {
        lemma_drop_step(g, t, f, x, y);
    }
}

/// The action timer at the end of the tick.
pub open spec fn spec_tick_last(inp: InputState, now: int, last: int) -> int {
    if spec_action_phase_on(inp, now, last) && inp.spec_acted() {
        now
    } else {
        spec_move_phase_last(inp, now, last)
    }
}

/// The anchor at the end of the tick and whether the piece landed: after
/// gravity, held moves, rotations and a hard drop, a piece whose row
/// changed into an invalid placement snaps back to its old row and lands.
pub open spec fn spec_tick_pos_landed(
    g: GridState,
    p: Piece,
    inp: InputState,
    now: int,
    last: int,
    dt: int,
) -> ((int, int), bool) {
    let pos2 = spec_move_phase_pos(g, p, inp, now, last, dt);
    let f2 = spec_tick_facing(g, p, inp, now, last, dt);
    let dropped = spec_action_phase_on(inp, now, last) && inp.up;
    let pos3 = if dropped {
        (pos2.0, spec_drop_y(g, p.piece_type, f2, pos2.0, pos2.1))
    } else {
        pos2
    };
    let row0 = spec_round_to_cell(p.pos.y());
    if row0 != spec_round_to_cell(pos3.1) && !g.spec_valid(p.piece_type, f2, pos3.0, pos3.1) {
        ((pos3.0, row0 * SUBUNITS), true)
    } else {
        (pos3, dropped)
    }
}

pub open spec fn spec_tick_pos(
    g: GridState,
    p: Piece,
    inp: InputState,
    now: int,
    last: int,
    dt: int,
) -> (int, int) {
    spec_tick_pos_landed(g, p, inp, now, last, dt).0
}

pub open spec fn spec_tick_landed(
    g: GridState,
    p: Piece,
    inp: InputState,
    now: int,
    last: int,
    dt: int,
) -> bool {
    spec_tick_pos_landed(g, p, inp, now, last, dt).1
}

/// What a hard drop adds to the score: one point per row dropped.
pub open spec fn spec_tick_score_add(
    g: GridState,
    p: Piece,
    inp: InputState,
    now: int,
    last: int,
    dt: int,
) -> int {
    if spec_action_phase_on(inp, now, last) && inp.up {
        let pos2 = spec_move_phase_pos(g, p, inp, now, last, dt);
        let f2 = spec_tick_facing(g, p, inp, now, last, dt);
        spec_drop_count(g, p.piece_type, f2, pos2.0, pos2.1)
    } else {
        0
    }
}

/// The cell (column, row) that block `i` of a placement occupies.
pub open spec fn spec_block_cell(t: PieceType, f: Direction, x: int, y: int, i: int) -> (int, int) {
    let pt = spec_block_point(x, y, f, spec_offset(t, i));
    (spec_round_to_cell(pt.0), spec_round_to_cell(pt.1))
}

/// `g1` is `g0` with the blocks of a landed piece of kind `t`, facing
/// `f`, anchored at (x, y), committed: only cells the piece covers
/// changed, and every covered cell inside the board now holds a block of
/// that kind.
pub open spec fn spec_locked(
    g0: GridState,
    g1: GridState,
    t: PieceType,
    f: Direction,
    x: int,
    y: int,
) -> bool {
    &&& forall|r: int, c: int|
        0 <= r < ROWS && 0 <= c < COLUMNS && g1.cell(r, c) != g0.cell(r, c) ==> exists|i: int|
            0 <= i < 4 && #[trigger] spec_block_cell(t, f, x, y, i) == (c, r)
    &&& forall|i: int|
        0 <= i < 4 ==> {
            let cell = #[trigger] spec_block_cell(t, f, x, y, i);
            (0 <= cell.0 < COLUMNS && 0 <= cell.1 < ROWS) ==> (g1.cell(cell.1, cell.0)
                matches Some(b) && b.piece_type == t)
        }
}

/// A piece stored by the scene (falling, held or queued): well formed, in
/// play, and not yet landed.
pub open spec fn spec_piece_stored_ok(p: Piece) -> bool {
    &&& p.wf()
    &&& p.landed == false
    &&& spec_piece_in_play(p)
}

/// The classic per-clear scores for 1 to 4 rows at once.
pub open spec fn spec_raw_score(n: int) -> int {
    if n == 1 {
        40
    } else if n == 2 {
        100
    } else if n == 3 {
        300
    } else {
        1200
    }
}

/// The running game: the board, the falling piece and its ghost
/// projection, the held piece, a three-piece lookahead queue, the timers,
/// and the score counters.  Time is counted in 1/120 s units.
#[derive(Debug)]
pub struct GameScene {
    pub grid: GridState,
    pub input: InputState,
    pub falling: Option<Piece>,
    pub projection: Option<Piece>,
    pub held: Option<Piece>,
    pub next: VecDeque<Piece>,
    pub clock: u64,
    pub last_action: u64,
    pub pause: bool,
    pub quit: bool,
    pub score: u32,
    pub level: u32,
    pub lines_cleared: u32,
}

impl GameScene {
    pub open spec fn wf(self) -> bool {
        &&& self.grid.wf()
        &&& match self.falling {
            Some(p) => spec_piece_stored_ok(p),
            None => true,
        }
        &&& match self.held {
            Some(p) => spec_piece_stored_ok(p),
            None => true,
        }
        &&& match self.projection {
            Some(p) => p.wf(),
            None => true,
        }
        &&& self.next@.len() == 3
        &&& forall|i: int| 0 <= i < self.next@.len() ==> spec_piece_stored_ok(#[trigger] self.next@[i])
        &&& self.level as int == self.lines_cleared as int / 10 + 1
        &&& self.last_action <= self.clock
    }

    /// Between ticks the board never holds a full row: clearing runs at
    /// the end of every tick.
    pub open spec fn spec_rows_ok(self) -> bool {
        forall|r: int| 0 <= r < ROWS ==> !(#[trigger] self.grid.spec_row_full(r))
    }

    pub fn new() -> (s: GameScene)
        ensures
            spec_fresh_game(s),
            s.wf(),
            s.spec_rows_ok(),
            s.falling is None,
            s.held is None,
            s.projection is None,
            s.score == 0,
            s.level == 1,
            s.lines_cleared == 0,
            s.clock == 0,
            s.last_action == 0,
            s.pause == false,
            s.quit == false,
            s.input == spec_input_clear(),
            forall|r: int, c: int|
                0 <= r < ROWS && 0 <= c < COLUMNS ==> (#[trigger] s.grid.cell(r, c)) is None,
    {
        let grid = GridState::new();
        let mut next: VecDeque<Piece> = VecDeque::new();
        next.push_back(create_random_piece(BASE_SPEED));
        next.push_back(create_random_piece(BASE_SPEED));
        next.push_back(create_random_piece(BASE_SPEED));
        let s = GameScene {
            grid,
            input: InputState::default(),
            falling: None,
            projection: None,
            held: None,
            next,
            clock: 0,
            last_action: 0,
            pause: false,
            quit: false,
            score: 0,
            level: 1,
            lines_cleared: 0,
        };
        proof {
            assert forall|r: int| 0 <= r < ROWS implies !(s.grid.spec_row_full(r)) by {
                assert(s.grid.cell(r, 0) is None);
            }
        }
        s
    }

    /// Exchange the falling and held pieces when a hold was requested,
    /// consuming the request.
    pub fn swap_hold(&mut self)
        requires
            old(self).wf(),
        ensures
            final(self).wf(),
            !old(self).input.hold ==> *final(self) == *old(self),
            old(self).input.hold ==> *final(self) == (GameScene {
                input: (InputState { hold: false, ..old(self).input }),
                falling: old(self).held,
                held: old(self).falling,
                ..*old(self)
            }),
    {
        if self.input.hold {
            self.input.hold = false;
            let held_piece = self.held;
            let falling_piece = self.falling;
            self.falling = held_piece;
            self.held = falling_piece;
        }
    }

    /// Dequeue the next piece when none is falling, refilling the queue
    /// with a fresh piece whose speed follows the current level.
    pub fn create_new_piece(&mut self)
        requires
            old(self).wf(),
        ensures
            final(self).wf(),
            final(self).falling is Some,
            old(self).falling is Some ==> *final(self) == *old(self),
            old(self).falling is None ==> {
                &&& final(self).falling == Some(old(self).next@[0])
                &&& final(self).next@.len() == 3
                &&& final(self).next@[0] == old(self).next@[1]
                &&& final(self).next@[1] == old(self).next@[2]
                &&& spec_piece_stored_ok(final(self).next@[2])
                &&& final(self).next@[2].velocity.y == BASE_SPEED + old(self).level
                    * SPEED_PER_LEVEL
                &&& *final(self) == (GameScene {
                    falling: final(self).falling,
                    next: final(self).next,
                    ..*old(self)
                })
            },
    {
        if self.falling.is_none() {
            let next = self.next.pop_front().unwrap();
            let piece = create_random_piece(BASE_SPEED + (self.level as i64) * SPEED_PER_LEVEL);
            self.next.push_back(piece);
            self.falling = Some(next);
        }
    }

    /// The game is over when one of the two top rows holds a block, or
    /// when the falling piece rests in an invalid placement.
    pub open spec fn spec_should_end(self) -> bool {
        ||| exists|r: int, c: int|
            0 <= r < 2 && 0 <= c < COLUMNS && (#[trigger] self.grid.cell(r, c)) is Some
        ||| match self.falling {
            Some(p) => !self.grid.spec_valid(p.piece_type, p.facing, p.pos.x(), p.pos.y()),
            None => false,
        }
    }

    pub fn should_end(&self) -> (r: bool)
        requires
            self.wf(),
        ensures
            r == self.spec_should_end(),
    {
        let mut i: usize = 0;
        while i < 2
            invariant
                self.wf(),
                i <= 2,
                forall|r: int, c: int|
                    0 <= r < i && 0 <= c < COLUMNS ==> !((#[trigger] self.grid.cell(r, c)) is Some),
            decreases 2 - i,
        {
            let mut j: usize = 0;
            while j < COLUMNS
                invariant
                    self.wf(),
                    i < 2,
                    j <= COLUMNS,
                    forall|r: int, c: int|
                        0 <= r < i && 0 <= c < COLUMNS ==> !((#[trigger] self.grid.cell(
                            r,
                            c,
                        )) is Some),
                    forall|c: int|
                        0 <= c < j ==> !((#[trigger] self.grid.cell(i as int, c)) is Some),
                decreases COLUMNS - j,
            {
                if self.grid.get_cell(i, j).is_some() {
                    return true;
                }
                j = j + 1;
            }
            i = i + 1;
        }
        if let Some(p) = &self.falling {
            if !self.grid.is_valid_position(p, &p.pos) {
                return true;
            }
        }
        false
    }

    /// Clear the full rows, count them, and apply the classic scoring:
    /// the per-clear value times the level reached, the level following
    /// the total lines at one level per ten lines.
    pub fn clear_full_rows(&mut self)
        requires
            old(self).wf(),
            old(self).grid.spec_full_count() <= 4,
            old(self).lines_cleared + 4 <= u32::MAX,
            (old(self).lines_cleared as int / 10 + 2) * 1200 + old(self).score <= u32::MAX,
        ensures
            final(self).wf(),
            final(self).spec_rows_ok(),
            spec_cleared(old(self).grid, final(self).grid),
            old(self).grid.spec_full_count() == 0 ==> final(self).grid == old(self).grid,
            final(self).lines_cleared == old(self).lines_cleared + old(self).grid.spec_full_count(),
            old(self).lines_cleared <= final(self).lines_cleared,
            old(self).score <= final(self).score,
            final(self).level as int == final(self).lines_cleared as int / 10 + 1,
            final(self).score == old(self).score + if old(self).grid.spec_full_count() > 0 {
                final(self).level * spec_raw_score(old(self).grid.spec_full_count())
            } else {
                0
            },
            *final(self) == (GameScene {
                grid: final(self).grid,
                lines_cleared: final(self).lines_cleared,
                level: final(self).level,
                score: final(self).score,
                ..*old(self)
            }),
    {
        let ghost g0 = self.grid;
        let n = self.grid.clear_full_rows();
        if n > 0 {
            self.lines_cleared = self.lines_cleared + n as u32;
            let ghost lines0 = old(self).lines_cleared as int;
            assert(self.lines_cleared as int / 10 <= lines0 / 10 + 1);
            self.level = self.lines_cleared / 10 + 1;
            let raw: u32 = if n == 1 {
                40
            } else if n == 2 {
                100
            } else if n == 3 {
                300
            } else {
                1200
            };
            assert(self.level as int * raw as int <= (lines0 / 10 + 2) * 1200) by {
                vstd::arithmetic::mul::lemma_mul_upper_bound(
                    self.level as int,
                    lines0 / 10 + 2,
                    raw as int,
                    1200,
                );
            };
            self.score = self.score + self.level * raw;
        }
        proof {
            let g1 = self.grid;
            lemma_kept_from_props(g0, 0);
            assert forall|r: int| 0 <= r < ROWS implies !(g1.spec_row_full(r)) by {
                let nn = g0.spec_full_count();
                if r < nn {
                    assert(g1.cell(r, 0) is None);
                } else {
                    let kept = g0.spec_kept_from(0);
                    let src = kept[r - nn];
                    assert(!g0.spec_row_full(src));
                    let cc = choose|cc: int|
                        0 <= cc < COLUMNS && !((#[trigger] g0.cell(src, cc)) is Some);
                    assert(g1.cell(r, cc) is None);
                }
            }
        }
    }

    /// The lowest valid anchor straight below the piece: where it would
    /// rest if dropped now.
    pub fn compute_projection_position(grid: &GridState, p: &Piece) -> (pos: Position)
        requires
            grid.wf(),
            p.wf(),
            spec_piece_in_play(*p),
        ensures
            pos.wf(),
            pos.x() == p.pos.x(),
            pos.y() == if grid.spec_valid(p.piece_type, p.facing, p.pos.x(), p.pos.y()) {
                spec_drop_y(*grid, p.piece_type, p.facing, p.pos.x(), p.pos.y())
            } else {
                p.pos.y()
            },
            0 <= pos.y() <= 27 * SUBUNITS + HALF_CELL,
    {
        let ghost t = p.piece_type;
        let ghost f = p.facing;
        let ghost x = p.pos.x();
        let ghost y0 = p.pos.y();
        let mut down = p.pos;
        let mut new_pos = down;
        proof {
            assert(y0 <= 27 * SUBUNITS + HALF_CELL) by {
                if y0 > 27 * SUBUNITS + HALF_CELL {
                    assert((y0 + HALF_CELL) / (SUBUNITS as int) >= 28);
                }
            };
        }
        while grid.is_valid_position(p, &down)
            invariant
                grid.wf(),
                p.wf(),
                spec_piece_in_play(*p),
                t == p.piece_type,
                f == p.facing,
                x == p.pos.x(),
                y0 == p.pos.y(),
                down.wf(),
                new_pos.wf(),
                down.x() == x,
                new_pos.x() == x,
                0 <= down.y() <= 27 * SUBUNITS + HALF_CELL,
                0 <= new_pos.y() <= 27 * SUBUNITS + HALF_CELL,
                (new_pos == p.pos && down == p.pos) || (grid.spec_valid(t, f, x, y0)
                    && grid.spec_valid(t, f, x, new_pos.y()) && down.y() == spec_move_down_y(
                    new_pos.y(),
                ) && spec_drop_y(*grid, t, f, x, y0) == spec_drop_y(*grid, t, f, x, new_pos.y())),
            decreases 27 * SUBUNITS - down.y(),
        {
            let ghost prev = new_pos;
            let ghost down0 = down;
            proof {
                lemma_valid_anchor_bounds(*grid, t, f, x, down.y());
            }
            new_pos = down;
            down = new_pos.move_down();
            proof {
                vstd::arithmetic::div_mod::lemma_fundamental_div_mod(new_pos.y(), SUBUNITS as int);
                if !(prev == p.pos && down0 == p.pos) {
                    assert(spec_move_down_y(prev.y()) == new_pos.y());
                    assert(spec_drop_y(*grid, t, f, x, prev.y()) == spec_drop_y(
                        *grid,
                        t,
                        f,
                        x,
                        new_pos.y(),
                    ));
                }
            }
        }
        new_pos
    }

    /// Refresh the drop preview for the current falling piece.
    pub fn update_projection(&mut self)
        requires
            old(self).wf(),
        ensures
            final(self).wf(),
            old(self).falling is None ==> *final(self) == *old(self),
            old(self).falling matches Some(p) ==> {
                &&& final(self).projection matches Some(pr)
                &&& pr.piece_type == p.piece_type
                &&& pr.facing == p.facing
                &&& pr.velocity == p.velocity
                &&& pr.landed == p.landed
                &&& pr.block_positions == p.block_positions
                &&& pr.pos.x() == p.pos.x()
                &&& pr.pos.y() == if old(self).grid.spec_valid(
                    p.piece_type,
                    p.facing,
                    p.pos.x(),
                    p.pos.y(),
                ) {
                    spec_drop_y(old(self).grid, p.piece_type, p.facing, p.pos.x(), p.pos.y())
                } else {
                    p.pos.y()
                }
                &&& *final(self) == (GameScene { projection: final(self).projection, ..*old(self) })
            },
    {
        if self.falling.is_some() {
            let p = self.falling.unwrap();
            let mut proj = p;
            proj.pos = GameScene::compute_projection_position(&self.grid, &proj);
            self.projection = Some(proj);
        }
    }
}

/// The held discrete steps: left, right, then soft drop, each applied
/// only where the result is valid.
fn move_steps(grid: &GridState, p: &Piece, pos: Position, input: &InputState) -> (r: Position)
    requires
        grid.wf(),
        p.wf(),
        pos.wf(),
        -3 * SUBUNITS <= pos.x() <= 13 * SUBUNITS,
        0 <= pos.y() <= MAX_GRAVITY + 28 * SUBUNITS,
    ensures
        r.wf(),
        (r.x(), r.y()) == spec_after_moves(
            *grid,
            p.piece_type,
            p.facing,
            *input,
            (pos.x(), pos.y()),
        ),
        -3 * SUBUNITS <= r.x() <= 13 * SUBUNITS,
        0 <= r.y() <= MAX_GRAVITY + 29 * SUBUNITS,
{
    let mut new_pos = pos;
    if input.left {
        let left = new_pos.move_left();
        if grid.is_valid_position(p, &left) {
            new_pos = left;
            proof {
                lemma_valid_anchor_bounds(*grid, p.piece_type, p.facing, new_pos.x(), new_pos.y());
            }
        }
    }
    if input.right {
        let right = new_pos.move_right();
        if grid.is_valid_position(p, &right) {
            new_pos = right;
            proof {
                lemma_valid_anchor_bounds(*grid, p.piece_type, p.facing, new_pos.x(), new_pos.y());
            }
        }
    }
    if input.down {
        let down = new_pos.move_down();
        proof {
            vstd::arithmetic::div_mod::lemma_fundamental_div_mod(new_pos.y(), SUBUNITS as int);
        }
        if grid.is_valid_position(p, &down) {
            new_pos = down;
        }
    }
    new_pos
}

/// The rotation attempts: applied in place, then reverted where the
/// rotated placement is invalid.
fn rotate_steps(grid: &GridState, p: &mut Piece, pos: &Position, input: &InputState)
    requires
        grid.wf(),
        old(p).wf(),
        pos.wf(),
        in_anchor_range(pos.x()),
        in_anchor_range(pos.y()),
    ensures
        final(p).wf(),
        *final(p) == (Piece { facing: final(p).facing, ..*old(p) }),
        final(p).facing == spec_rotations(
            *grid,
            old(p).piece_type,
            old(p).facing,
            *input,
            (pos.x(), pos.y()),
        ),
{
    if input.rotate_right {
        p.rotate_cw();
        if !grid.is_valid_position(p, pos) {
            p.rotate_ccw();
        }
    }
    if input.rotate_left {
        p.rotate_ccw();
        if !grid.is_valid_position(p, pos) {
            p.rotate_cw();
        }
    }
}

/// A hard drop: walk one row down while the placement stays valid,
/// counting the rows passed.
fn hard_drop(grid: &GridState, p: &Piece, pos: Position) -> (r: (Position, u32))
    requires
        grid.wf(),
        p.wf(),
        pos.wf(),
        -3 * SUBUNITS <= pos.x() <= 13 * SUBUNITS,
        0 <= pos.y() <= MAX_GRAVITY + 29 * SUBUNITS,
    ensures
        r.0.wf(),
        r.0.x() == pos.x(),
        r.0.y() == spec_drop_y(*grid, p.piece_type, p.facing, pos.x(), pos.y()),
        r.1 as int == spec_drop_count(*grid, p.piece_type, p.facing, pos.x(), pos.y()),
        r.1 <= 100,
        pos.y() <= r.0.y(),
        r.1 >= 1 ==> r.0.y() <= 24 * SUBUNITS,
        r.1 == 0 ==> r.0.y() == pos.y(),
{
    let ghost gi = *grid;
    let ghost t = p.piece_type;
    let ghost f2 = p.facing;
    let ghost x2 = pos.x();
    let ghost y2 = pos.y();
    let mut new_pos = pos;
    let mut down = new_pos.move_down();
    let mut count: u32 = 0;
    proof {
        vstd::arithmetic::div_mod::lemma_fundamental_div_mod(new_pos.y(), SUBUNITS as int);
    }
    while grid.is_valid_position(p, &down)
        invariant
            gi == *grid,
            gi.wf(),
            p.wf(),
            t == p.piece_type,
            f2 == p.facing,
            new_pos.wf(),
            down.wf(),
            new_pos.x() == x2,
            down.x() == x2,
            -3 * SUBUNITS <= x2 <= 13 * SUBUNITS,
            0 <= y2 <= MAX_GRAVITY + 29 * SUBUNITS,
            0 <= new_pos.y(),
            in_anchor_range(new_pos.y()),
            in_anchor_range(down.y()),
            down.y() == spec_move_down_y(new_pos.y()),
            count == 0 ==> new_pos.y() == y2,
            count >= 1 ==> gi.spec_valid(t, f2, x2, new_pos.y()) && new_pos.y() % (
            SUBUNITS as int) == 0 && new_pos.y() <= 24 * SUBUNITS && count as int * SUBUNITS
                <= new_pos.y(),
            y2 <= new_pos.y(),
            spec_drop_y(gi, t, f2, x2, y2) == spec_drop_y(gi, t, f2, x2, new_pos.y()),
            spec_drop_count(gi, t, f2, x2, y2) == count + spec_drop_count(
                gi,
                t,
                f2,
                x2,
                new_pos.y(),
            ),
            count <= 25,
        decreases 27 * SUBUNITS - new_pos.y(),
    {
        proof {
            lemma_drop_step(gi, t, f2, x2, new_pos.y());
        }
        let ghost prev = new_pos;
        count = count + 1;
        new_pos = down;
        down = new_pos.move_down();
        proof {
            vstd::arithmetic::div_mod::lemma_fundamental_div_mod(new_pos.y(), SUBUNITS as int);
            assert(spec_drop_y(gi, t, f2, x2, prev.y()) == spec_drop_y(
                gi,
                t,
                f2,
                x2,
                new_pos.y(),
            ));
            assert(spec_drop_count(gi, t, f2, x2, prev.y()) == 1 + spec_drop_count(
                gi,
                t,
                f2,
                x2,
                new_pos.y(),
            ));
        }
    }
    proof {
        assert(spec_drop_y(gi, t, f2, x2, new_pos.y()) == new_pos.y());
        assert(spec_drop_count(gi, t, f2, x2, new_pos.y()) == 0);
    }
    (new_pos, count)
}

/// One physics step of the falling piece against a fixed board: gravity,
/// delayed discrete moves, delayed rotations and hard drop, then landing
/// detection by row change into an invalid placement.  Returns the new
/// action timer and what the hard drop added to the score.
#[verifier::rlimit(60)]
fn step_piece(
    grid: &GridState,
    p: &mut Piece,
    input: &InputState,
    now: u64,
    last: u64,
    dt: u32,
) -> (r: (u64, u32))
    requires
        grid.wf(),
        old(p).wf(),
        old(p).landed == false,
        spec_piece_in_play(*old(p)),
        last <= now,
        old(p).velocity.y * (dt as int) <= MAX_GRAVITY,
    ensures
        final(p).wf(),
        final(p).piece_type == old(p).piece_type,
        final(p).velocity == old(p).velocity,
        final(p).block_positions == old(p).block_positions,
        final(p).facing == spec_tick_facing(
            *grid,
            *old(p),
            *input,
            now as int,
            last as int,
            dt as int,
        ),
        (final(p).pos.x(), final(p).pos.y()) == spec_tick_pos(
            *grid,
            *old(p),
            *input,
            now as int,
            last as int,
            dt as int,
        ),
        final(p).landed == spec_tick_landed(
            *grid,
            *old(p),
            *input,
            now as int,
            last as int,
            dt as int,
        ),
        r.0 as int == spec_tick_last(*input, now as int, last as int),
        last <= r.0 <= now,
        r.1 as int == spec_tick_score_add(
            *grid,
            *old(p),
            *input,
            now as int,
            last as int,
            dt as int,
        ),
        r.1 <= 100,
        !final(p).landed ==> spec_piece_in_play(*final(p)),
{
    let ghost p0 = *p;
    let ghost gi = *grid;
    let ghost inow = now as int;
    let ghost ilast = last as int;
    let ghost idt = dt as int;
    let ghost t = p0.piece_type;

    proof {
        assert(p0.pos.y() <= 27 * SUBUNITS + HALF_CELL) by {
            if p0.pos.y() > 27 * SUBUNITS + HALF_CELL {
                assert((p0.pos.y() + HALF_CELL) / (SUBUNITS as int) >= 28);
            }
        };
    }
    let dv: i64 = p.velocity.y * (dt as i64);
    let x0 = p.pos.absolute_position().x;
    let y0 = p.pos.absolute_position().y;
    let mut new_pos = Position::new(x0, y0 + dv);
    let mut last_action: u64 = last;
    let mut score_add: u32 = 0;
    assert((new_pos.x(), new_pos.y()) == spec_gravity_pos(p0, idt));

    if now - last_action >= MOVEMENT_DELAY {
        new_pos = move_steps(grid, p, new_pos, input);
        if input.moved() {
            last_action = now;
        }
    }
    assert((new_pos.x(), new_pos.y()) == spec_move_phase_pos(gi, p0, *input, inow, ilast, idt));
    assert(last_action as int == spec_move_phase_last(*input, inow, ilast));

    let ghost x2 = new_pos.x();
    let ghost y2 = new_pos.y();

    if now - last_action >= INPUT_DELAY {
        assert(spec_action_phase_on(*input, inow, ilast));
        rotate_steps(grid, p, &new_pos, input);
        assert(p.facing == spec_tick_facing(gi, p0, *input, inow, ilast, idt));
        if input.up {
            let dropped = hard_drop(grid, p, new_pos);
            new_pos = dropped.0;
            p.landed = true;
            score_add = dropped.1;
        }
        if input.acted() {
            last_action = now;
        }
    } else {
        assert(!spec_action_phase_on(*input, inow, ilast));
        assert(p.facing == spec_tick_facing(gi, p0, *input, inow, ilast, idt));
    }
    assert(last_action as int == spec_tick_last(*input, inow, ilast));
    assert(score_add as int == spec_tick_score_add(gi, p0, *input, inow, ilast, idt));

    if p.pos.grid_position().y != new_pos.grid_position().y {
        if !grid.is_valid_position(p, &new_pos) {
            proof {
                assert(p0.pos.grid_pos.y == spec_round_to_cell(p0.pos.y()));
                assert(0 <= p0.pos.grid_pos.y <= 27);
            }
            new_pos = Position::new(
                new_pos.absolute_position().x,
                p.pos.grid_position().y * SUBUNITS,
            );
            p.landed = true;
        }
    }
    p.pos = new_pos;
    proof {
        assert((p.pos.x(), p.pos.y()) == spec_tick_pos(gi, p0, *input, inow, ilast, idt));
        assert(p.landed == spec_tick_landed(gi, p0, *input, inow, ilast, idt));
        if !p.landed {
            let row0 = spec_round_to_cell(p0.pos.y());
            let f2 = spec_tick_facing(gi, p0, *input, inow, ilast, idt);
            if spec_round_to_cell(p.pos.y()) != row0 {
                lemma_valid_anchor_bounds(gi, t, f2, p.pos.x(), p.pos.y());
                assert(spec_round_to_cell(p.pos.y()) <= 27) by {
                    if spec_round_to_cell(p.pos.y()) > 27 {
                        assert(p.pos.y() >= 0);
                        assert((p.pos.y() + HALF_CELL) / (SUBUNITS as int) >= 28);
                        assert(p.pos.y() >= 28 * SUBUNITS - HALF_CELL);
                    }
                };
            }
            assert(spec_piece_in_play(*p));
        }
    }
    (last_action, score_add)
}

/// Copy the blocks of a landed piece into the board cells they cover;
/// blocks outside the board (above the top) are dropped.
fn lock_piece(grid: &mut GridState, p: &Piece)
    requires
        old(grid).wf(),
        p.wf(),
    ensures
        final(grid).wf(),
        spec_locked(*old(grid), *final(grid), p.piece_type, p.facing, p.pos.x(), p.pos.y()),
{
    let ghost g0 = *grid;
    let ghost t = p.piece_type;
    let ghost f = p.facing;
    let ghost x = p.pos.x();
    let ghost y = p.pos.y();
    let blocks = p.get_blocks(&p.pos);
    let mut i: usize = 0;
    while i < 4
        invariant
            grid.wf(),
            p.wf(),
            t == p.piece_type,
            f == p.facing,
            x == p.pos.x(),
            y == p.pos.y(),
            i <= 4,
            blocks@.len() == 4,
            forall|j: int|
                0 <= j < 4 ==> {
                    let b = #[trigger] blocks@[j];
                    &&& b.piece_type == p.piece_type
                    &&& b.pos.wf()
                    &&& (b.pos.x(), b.pos.y()) == spec_block_point(x, y, f, spec_offset(t, j))
                },
            forall|r: int, c: int|
                0 <= r < ROWS && 0 <= c < COLUMNS && grid.cell(r, c) != g0.cell(r, c)
                    ==> exists|j: int|
                    0 <= j < i && #[trigger] spec_block_cell(t, f, x, y, j) == (c, r),
            forall|j: int|
                0 <= j < i ==> {
                    let cell = #[trigger] spec_block_cell(t, f, x, y, j);
                    (0 <= cell.0 < COLUMNS && 0 <= cell.1 < ROWS) ==> (grid.cell(cell.1, cell.0)
                        matches Some(b) && b.piece_type == t)
                },
        decreases 4 - i,
    {
        let gp = blocks[i].pos.grid_position();
        proof {
            assert((gp.x as int, gp.y as int) == spec_block_cell(t, f, x, y, i as int));
        }
        if gp.x >= 0 && gp.x < COLUMNS as i64 && gp.y >= 0 && gp.y < ROWS as i64 {
            grid.set_cell(
                gp.y as usize,
                gp.x as usize,
                Some(Block::from_piece(p, blocks[i].pos)),
            );
        }
        i = i + 1;
    }
}

impl GameScene {
    /// Advance the falling piece by one tick of physics and held input,
    /// and commit its blocks into the board when it lands.
    #[verifier::rlimit(60)]
    pub fn update_piece_position(&mut self, dt: u32)
        requires
            old(self).wf(),
            old(self).score + 100 <= u32::MAX,
            match old(self).falling {
                Some(p) => p.velocity.y * (dt as int) <= MAX_GRAVITY,
                None => true,
            },
        ensures
            final(self).wf(),
            old(self).falling is None ==> *final(self) == *old(self),
            old(self).falling is Some ==> {
                let p = old(self).falling->0;
                let g = old(self).grid;
                let inp = old(self).input;
                let now = old(self).clock as int;
                let last = old(self).last_action as int;
                &&& final(self).last_action as int == spec_tick_last(inp, now, last)
                &&& final(self).score as int == old(self).score + spec_tick_score_add(
                    g,
                    p,
                    inp,
                    now,
                    last,
                    dt as int,
                )
                &&& final(self).held == old(self).held
                &&& final(self).next == old(self).next
                &&& final(self).input == old(self).input
                &&& final(self).clock == old(self).clock
                &&& final(self).pause == old(self).pause
                &&& final(self).quit == old(self).quit
                &&& final(self).level == old(self).level
                &&& final(self).lines_cleared == old(self).lines_cleared
            },
            old(self).falling is Some && !spec_tick_landed(
                old(self).grid,
                old(self).falling->0,
                old(self).input,
                old(self).clock as int,
                old(self).last_action as int,
                dt as int,
            ) ==> {
                let p = old(self).falling->0;
                let g = old(self).grid;
                let inp = old(self).input;
                let now = old(self).clock as int;
                let last = old(self).last_action as int;
                &&& final(self).grid == old(self).grid
                &&& final(self).projection == old(self).projection
                &&& final(self).falling matches Some(q) && q.piece_type == p.piece_type
                    && q.velocity == p.velocity && q.block_positions == p.block_positions
                    && q.facing == spec_tick_facing(g, p, inp, now, last, dt as int) && (
                q.pos.x(),
                q.pos.y()) == spec_tick_pos(g, p, inp, now, last, dt as int) && q.landed == false
            },
            old(self).falling is Some && spec_tick_landed(
                old(self).grid,
                old(self).falling->0,
                old(self).input,
                old(self).clock as int,
                old(self).last_action as int,
                dt as int,
            ) ==> {
                let p = old(self).falling->0;
                let g = old(self).grid;
                let inp = old(self).input;
                let now = old(self).clock as int;
                let last = old(self).last_action as int;
                let f2 = spec_tick_facing(g, p, inp, now, last, dt as int);
                let pos4 = spec_tick_pos(g, p, inp, now, last, dt as int);
                &&& final(self).falling is None
                &&& final(self).projection is None
                &&& spec_locked(g, final(self).grid, p.piece_type, f2, pos4.0, pos4.1)
            },
            old(self).spec_rows_ok() ==> final(self).grid.spec_full_count() <= 4,
            old(self).score <= final(self).score <= old(self).score + 100,
            final(self).lines_cleared == old(self).lines_cleared,
    {
        if self.falling.is_some() {
            let mut p = self.falling.unwrap();
            let r = step_piece(&self.grid, &mut p, &self.input, self.clock, self.last_action, dt);
            self.last_action = r.0;
            self.score = self.score + r.1;
            if p.landed {
                let ghost gpre = self.grid;
                lock_piece(&mut self.grid, &p);
                self.falling = None;
                self.projection = None;
                proof {
                    if old(self).spec_rows_ok() {
                        let t = p.piece_type;
                        let f = p.facing;
                        let x = p.pos.x();
                        let y = p.pos.y();
                        let c0 = spec_block_cell(t, f, x, y, 0);
                        let c1 = spec_block_cell(t, f, x, y, 1);
                        let c2 = spec_block_cell(t, f, x, y, 2);
                        let c3 = spec_block_cell(t, f, x, y, 3);
                        assert forall|j: int|
                            0 <= j < ROWS as int && #[trigger] self.grid.spec_row_full(j)
                                implies j == c0.1 || j == c1.1 || j == c2.1 || j == c3.1 by {
                            assert(!gpre.spec_row_full(j));
                            assert(exists|cc: int|
                                0 <= cc < COLUMNS && !((#[trigger] gpre.cell(j, cc)) is Some));
                            let cc = choose|cc: int|
                                0 <= cc < COLUMNS && !((#[trigger] gpre.cell(j, cc)) is Some);
                            assert(self.grid.cell(j, cc) is Some);
                            assert(self.grid.cell(j, cc) != gpre.cell(j, cc));
                            let i = choose|i: int|
                                0 <= i < 4 && #[trigger] spec_block_cell(t, f, x, y, i) == (cc, j);
                            assert(spec_block_cell(t, f, x, y, i).1 == j);
                        }
                        lemma_full_count_le(self.grid, c0.1, c1.1, c2.1, c3.1);
                    }
                }
            } else {
                self.falling = Some(p);
                proof {
                    if old(self).spec_rows_ok() {
                        lemma_no_full_rows_count(self.grid);
                    }
                }
            }
        } else {
            proof {
                if old(self).spec_rows_ok() {
                    lemma_no_full_rows_count(self.grid);
                }
            }
        }
    }

    /// One fixed-timestep tick, in order: hold swap, spawning, piece
    /// physics, row clearing with scoring, and the drop preview, with
    /// the scene clock advanced by `dt` frames.
    #[verifier::rlimit(100)]
    pub fn update(&mut self, dt: u32)
        requires
            old(self).wf(),
            old(self).spec_rows_ok(),
            old(self).clock + TIME_UNITS_PER_FRAME * dt <= u64::MAX,
            old(self).lines_cleared + 4 <= u32::MAX,
            (old(self).lines_cleared as int / 10 + 2) * 1200 + old(self).score + 100
                <= u32::MAX,
            spec_dt_ok(*old(self), dt as int),
        ensures
            final(self).wf(),
            final(self).spec_rows_ok(),
            final(self).clock == old(self).clock + TIME_UNITS_PER_FRAME * dt,
            final(self).quit == old(self).quit,
            final(self).pause == old(self).pause,
            final(self).input == (InputState { hold: false, ..old(self).input }),
            old(self).score <= final(self).score,
            old(self).lines_cleared <= final(self).lines_cleared,
            final(self).falling is Some || final(self).projection is None,
            final(self).held == (if old(self).input.hold {
                old(self).falling
            } else {
                old(self).held
            }),
            spec_tick_spawns(*old(self)) ==> ({
                &&& final(self).next@.len() == 3
                &&& final(self).next@[0] == old(self).next@[1]
                &&& final(self).next@[1] == old(self).next@[2]
                &&& spec_piece_stored_ok(final(self).next@[2])
                &&& final(self).next@[2].velocity.y == BASE_SPEED + old(self).level
                    * SPEED_PER_LEVEL
            }),
            !spec_tick_spawns(*old(self)) ==> final(self).next == old(self).next,
            final(self).last_action as int == spec_tick_last(
                (InputState { hold: false, ..old(self).input }),
                old(self).clock + TIME_UNITS_PER_FRAME * dt,
                old(self).last_action as int,
            ),
            !spec_update_landed(*old(self), dt as int) ==> ({
                let p = spec_tick_piece(*old(self));
                let inp = InputState { hold: false, ..old(self).input };
                let now = old(self).clock + TIME_UNITS_PER_FRAME * dt;
                let last = old(self).last_action as int;
                &&& final(self).grid == old(self).grid
                &&& final(self).score == old(self).score + spec_tick_score_add(
                    old(self).grid,
                    p,
                    inp,
                    now,
                    last,
                    dt as int,
                )
                &&& final(self).lines_cleared == old(self).lines_cleared
                &&& final(self).level == old(self).level
                &&& final(self).falling matches Some(q) && q.piece_type == p.piece_type
                    && q.velocity == p.velocity && q.facing == spec_tick_facing(
                    old(self).grid,
                    p,
                    inp,
                    now,
                    last,
                    dt as int,
                ) && (q.pos.x(), q.pos.y()) == spec_tick_pos(
                    old(self).grid,
                    p,
                    inp,
                    now,
                    last,
                    dt as int,
                ) && q.landed == false && (final(self).projection matches Some(pr)
                    && pr.piece_type == q.piece_type && pr.facing == q.facing && pr.pos.x()
                    == q.pos.x() && pr.pos.y() == (if old(self).grid.spec_valid(
                    q.piece_type,
                    q.facing,
                    q.pos.x(),
                    q.pos.y(),
                ) {
                    spec_drop_y(old(self).grid, q.piece_type, q.facing, q.pos.x(), q.pos.y())
                } else {
                    q.pos.y()
                }))
            }),
            spec_update_landed(*old(self), dt as int) ==> ({
                let p = spec_tick_piece(*old(self));
                let inp = InputState { hold: false, ..old(self).input };
                let now = old(self).clock + TIME_UNITS_PER_FRAME * dt;
                let last = old(self).last_action as int;
                let f2 = spec_tick_facing(old(self).grid, p, inp, now, last, dt as int);
                let pos4 = spec_tick_pos(old(self).grid, p, inp, now, last, dt as int);
                &&& final(self).falling is None
                &&& final(self).projection is None
                &&& exists|g3: GridState|
                    {
                        &&& #[trigger] spec_locked(old(self).grid, g3, p.piece_type, f2, pos4.0, pos4.1)
                        &&& g3.spec_full_count() <= 4
                        &&& spec_cleared(g3, final(self).grid)
                        &&& final(self).lines_cleared == old(self).lines_cleared
                            + g3.spec_full_count()
                        &&& final(self).score == old(self).score + spec_tick_score_add(
                            old(self).grid,
                            p,
                            inp,
                            now,
                            last,
                            dt as int,
                        ) + (if g3.spec_full_count() > 0 {
                            final(self).level * spec_raw_score(g3.spec_full_count())
                        } else {
                            0
                        })
                    }
            }),
    {
        self.clock = self.clock + TIME_UNITS_PER_FRAME * (dt as u64);
        self.swap_hold();
        self.create_new_piece();
        proof {
            assert(self.falling == Some(spec_tick_piece(*old(self))));
            assert(self.input == (InputState { hold: false, ..old(self).input }));
            assert(self.grid == old(self).grid);
            assert(self.last_action == old(self).last_action);
        }
        self.update_piece_position(dt);
        proof {
            if self.grid == old(self).grid {
                lemma_no_full_rows_count(self.grid);
            }
        }
        self.clear_full_rows();
        self.update_projection();
    }
}

/// The piece that falls this tick: the held piece when a hold swap is
/// pending, else the current falling piece, else the head of the queue.
pub open spec fn spec_tick_piece(s: GameScene) -> Piece {
    let f = if s.input.hold {
        s.held
    } else {
        s.falling
    };
    match f {
        Some(p) => p,
        None => s.next@[0],
    }
}

/// Whether this tick dequeues a new piece: after the hold swap nothing
/// is falling.
pub open spec fn spec_tick_spawns(s: GameScene) -> bool {
    (if s.input.hold {
        s.held
    } else {
        s.falling
    }) is None
}

/// Whether this tick's piece lands (and is locked into the board).
pub open spec fn spec_update_landed(s: GameScene, dt: int) -> bool {
    spec_tick_landed(
        s.grid,
        spec_tick_piece(s),
        InputState { hold: false, ..s.input },
        s.clock + TIME_UNITS_PER_FRAME * dt,
        s.last_action as int,
        dt,
    )
}

/// Every piece the scene could drop this tick moves by a bounded amount:
/// what gravity advances stays within the coordinate range.
pub open spec fn spec_dt_ok(s: GameScene, dt: int) -> bool {
    &&& match s.falling {
        Some(p) => p.velocity.y * dt <= MAX_GRAVITY,
        None => true,
    }
    &&& match s.held {
        Some(p) => p.velocity.y * dt <= MAX_GRAVITY,
        None => true,
    }
    &&& s.next@.len() > 0 ==> s.next@[0].velocity.y * dt <= MAX_GRAVITY
}

/// The keys the game reacts to; anything else maps to `Other`.
#[derive(Debug, Copy, Clone, PartialEq, Eq, Structural)]
pub enum KeyCode {
    Escape,
    Space,
    Left,
    Right,
    Z,
    X,
    Up,
    Down,
    Other,
}

/// The gamepad buttons the game reacts to.
#[derive(Debug, Copy, Clone, PartialEq, Eq, Structural)]
pub enum Button {
    West,
    South,
    Start,
    Other,
}

/// The gamepad axes the game reacts to.
#[derive(Debug, Copy, Clone, PartialEq, Eq, Structural)]
pub enum Axis {
    DPadX,
    DPadY,
    Other,
}

#[derive(Debug, Copy, Clone, PartialEq, Eq, Structural)]
pub enum TransitionType {
    Swap,
    Push,
    Pop,
    Reset,
}

/// A request to restructure the scene stack, produced by the active
/// scene once per tick.
#[derive(Debug)]
pub struct Transition {
    pub transition_type: TransitionType,
    pub scene: Option<Scene>,
}

/// The closed set of scenes the stack can hold.
#[derive(Debug)]
pub enum Scene {
    Intro(IntroScene),
    Game(GameScene),
    Pause(PauseScene),
    GameOver(GameOverScene),
}

impl Scene {
    pub open spec fn wf(self) -> bool {
        match self {
            Scene::Game(g) => g.wf() && g.spec_rows_ok(),
            _ => true,
        }
    }
}

/// Shown when the game has ended; any gamepad button restarts.
#[derive(Debug, Copy, Clone, PartialEq, Eq, Structural)]
pub struct GameOverScene {
    pub restart: bool,
}

impl GameOverScene {
    pub fn new() -> (s: GameOverScene)
        ensures
            s.restart == false,
    {
        GameOverScene { restart: false }
    }

    pub fn update(&mut self)
        ensures
            *final(self) == *old(self),
    {
    }

    pub fn gamepad_button_down_event(&mut self, _btn: Button)
        ensures
            final(self).restart == true,
    {
        self.restart = true;
    }

    /// A restart request resets the stack onto a fresh game.
    pub fn get_transition(&mut self) -> (t: Option<Transition>)
        ensures
            *final(self) == *old(self),
            !old(self).restart ==> t is None,
            old(self).restart ==> ({
                &&& t matches Some(tr)
                &&& tr.transition_type == TransitionType::Reset
                &&& tr.scene matches Some(sc)
                &&& sc matches Scene::Game(gs)
                &&& spec_fresh_game(gs)
            }),
    {
        if self.restart {
            return Some(
                Transition {
                    transition_type: TransitionType::Reset,
                    scene: Some(Scene::Game(GameScene::new())),
                },
            );
        }
        None
    }
}

/// Shown over the game while paused; Start resumes.
#[derive(Debug, Copy, Clone, PartialEq, Eq, Structural)]
pub struct PauseScene {
    pub resume: bool,
}

impl PauseScene {
    pub fn new() -> (s: PauseScene)
        ensures
            s.resume == false,
    {
        PauseScene { resume: false }
    }

    pub fn update(&mut self)
        ensures
            *final(self) == *old(self),
    {
    }

    pub fn gamepad_button_down_event(&mut self, btn: Button)
        ensures
            btn == Button::Start ==> final(self).resume == true,
            btn != Button::Start ==> *final(self) == *old(self),
    {
        match btn {
            Button::Start => self.resume = true,
            _ => (),
        }
    }

    /// A resume request pops this scene, waking the game below.
    pub fn get_transition(&mut self) -> (t: Option<Transition>)
        ensures
            *final(self) == *old(self),
            !old(self).resume ==> t is None,
            old(self).resume ==> ({
                &&& t matches Some(tr)
                &&& tr.transition_type == TransitionType::Pop
                &&& tr.scene is None
            }),
    {
        if self.resume {
            return Some(Transition { transition_type: TransitionType::Pop, scene: None });
        }
        None
    }
}

/// The title screen; any key or button starts the game.
#[derive(Debug, Copy, Clone, PartialEq, Eq, Structural)]
pub struct IntroScene {
    pub start_game: bool,
}

impl IntroScene {
    pub fn new() -> (s: IntroScene)
        ensures
            s.start_game == false,
    {
        IntroScene { start_game: false }
    }

    pub fn update(&mut self)
        ensures
            *final(self) == *old(self),
    {
    }

    pub fn key_down_event(&mut self, _keycode: KeyCode)
        ensures
            final(self).start_game == true,
    {
        self.start_game = true;
    }

    pub fn gamepad_button_down_event(&mut self, _btn: Button)
        ensures
            final(self).start_game == true,
    {
        self.start_game = true;
    }

    /// A start request swaps the intro for a fresh game.
    pub fn get_transition(&mut self) -> (t: Option<Transition>)
        ensures
            *final(self) == *old(self),
            !old(self).start_game ==> t is None,
            old(self).start_game ==> ({
                &&& t matches Some(tr)
                &&& tr.transition_type == TransitionType::Swap
                &&& tr.scene matches Some(sc)
                &&& sc matches Scene::Game(gs)
                &&& spec_fresh_game(gs)
            }),
    {
        if self.start_game {
            return Some(
                Transition {
                    transition_type: TransitionType::Swap,
                    scene: Some(Scene::Game(GameScene::new())),
                },
            );
        }
        None
    }
}

impl GameScene {
    /// The game pushes a game-over overlay when it should end, or a pause
    /// overlay when a pause was requested, consuming the request.
    pub fn get_transition(&mut self) -> (t: Option<Transition>)
        requires
            old(self).wf(),
        ensures
            final(self).wf(),
            *final(self) == (GameScene { pause: final(self).pause, ..*old(self) }),
            old(self).spec_should_end() ==> ({
                &&& t matches Some(tr)
                &&& tr.transition_type == TransitionType::Push
                &&& tr.scene matches Some(sc)
                &&& sc matches Scene::GameOver(go)
                &&& go.restart == false
                &&& final(self).pause == old(self).pause
            }),
            !old(self).spec_should_end() && old(self).pause ==> ({
                &&& t matches Some(tr)
                &&& tr.transition_type == TransitionType::Push
                &&& tr.scene matches Some(sc)
                &&& sc matches Scene::Pause(ps)
                &&& ps.resume == false
                &&& final(self).pause == false
            }),
            !old(self).spec_should_end() && !old(self).pause ==> t is None && *final(self) == *old(
                self,
            ),
    {
        if self.should_end() {
            return Some(
                Transition {
                    transition_type: TransitionType::Push,
                    scene: Some(Scene::GameOver(GameOverScene::new())),
                },
            );
        } else if self.pause {
            self.pause = false;
            return Some(
                Transition {
                    transition_type: TransitionType::Push,
                    scene: Some(Scene::Pause(PauseScene::new())),
                },
            );
        }
        None
    }

    pub fn key_down_event(&mut self, keycode: KeyCode)
        ensures
            *final(self) == spec_key_down(*old(self), keycode),
    {
        match keycode {
            KeyCode::Escape => self.quit = true,
            KeyCode::Space => self.pause = true,
            KeyCode::Left => self.input.left = true,
            KeyCode::Right => self.input.right = true,
            KeyCode::Z => self.input.rotate_left = true,
            KeyCode::X => self.input.rotate_right = true,
            KeyCode::Up => self.input.up = true,
            KeyCode::Down => self.input.down = true,
            KeyCode::Other => (),
        }
    }

    pub fn key_up_event(&mut self, keycode: KeyCode)
        ensures
            *final(self) == spec_key_up(*old(self), keycode),
    {
        match keycode {
            KeyCode::Left => self.input.left = false,
            KeyCode::Right => self.input.right = false,
            KeyCode::Z => self.input.rotate_left = false,
            KeyCode::X => self.input.rotate_right = false,
            KeyCode::Up => self.input.up = false,
            KeyCode::Down => self.input.down = false,
            _ => (),
        }
    }

    pub fn gamepad_button_down_event(&mut self, btn: Button)
        ensures
            *final(self) == spec_button_down(*old(self), btn),
    {
        match btn {
            Button::West => self.input.rotate_left = true,
            Button::South => self.input.rotate_right = true,
            Button::Start => self.pause = true,
            Button::Other => (),
        }
    }

    pub fn gamepad_button_up_event(&mut self, btn: Button)
        ensures
            *final(self) == spec_button_up(*old(self), btn),
    {
        match btn {
            Button::West => self.input.rotate_left = false,
            Button::South => self.input.rotate_right = false,
            _ => (),
        }
    }

    /// A continuous axis maps to the discrete directions by sign.
    pub fn gamepad_axis_event(&mut self, axis: Axis, value: i64)
        ensures
            *final(self) == spec_axis_event(*old(self), axis, value as int),
    {
        match axis {
            Axis::DPadX => {
                if value < 0 {
                    self.input.left = true;
                } else if value > 0 {
                    self.input.right = true;
                } else {
                    self.input.left = false;
                    self.input.right = false;
                }
            },
            Axis::DPadY => {
                if value < 0 {
                    self.input.down = true;
                } else if value > 0 {
                    self.input.up = true;
                } else {
                    self.input.down = false;
                    self.input.up = false;
                }
            },
            Axis::Other => (),
        }
    }
}


/// The game state after a key press: Escape requests quitting, Space
/// requests pausing, and the movement/rotation keys set their input
/// flags.
pub open spec fn spec_key_down(g: GameScene, keycode: KeyCode) -> GameScene {
    match keycode {
        KeyCode::Escape => GameScene { quit: true, ..g },
        KeyCode::Space => GameScene { pause: true, ..g },
        KeyCode::Left => GameScene { input: InputState { left: true, ..g.input }, ..g },
        KeyCode::Right => GameScene { input: InputState { right: true, ..g.input }, ..g },
        KeyCode::Z => GameScene { input: InputState { rotate_left: true, ..g.input }, ..g },
        KeyCode::X => GameScene { input: InputState { rotate_right: true, ..g.input }, ..g },
        KeyCode::Up => GameScene { input: InputState { up: true, ..g.input }, ..g },
        KeyCode::Down => GameScene { input: InputState { down: true, ..g.input }, ..g },
        KeyCode::Other => g,
    }
}

/// The game state after a key release: the key's input flag is cleared.
pub open spec fn spec_key_up(g: GameScene, keycode: KeyCode) -> GameScene {
    match keycode {
        KeyCode::Left => GameScene { input: InputState { left: false, ..g.input }, ..g },
        KeyCode::Right => GameScene { input: InputState { right: false, ..g.input }, ..g },
        KeyCode::Z => GameScene { input: InputState { rotate_left: false, ..g.input }, ..g },
        KeyCode::X => GameScene { input: InputState { rotate_right: false, ..g.input }, ..g },
        KeyCode::Up => GameScene { input: InputState { up: false, ..g.input }, ..g },
        KeyCode::Down => GameScene { input: InputState { down: false, ..g.input }, ..g },
        _ => g,
    }
}

/// The game state after a gamepad button press.
pub open spec fn spec_button_down(g: GameScene, btn: Button) -> GameScene {
    match btn {
        Button::West => GameScene { input: InputState { rotate_left: true, ..g.input }, ..g },
        Button::South => GameScene { input: InputState { rotate_right: true, ..g.input }, ..g },
        Button::Start => GameScene { pause: true, ..g },
        Button::Other => g,
    }
}

/// The game state after a gamepad button release.
pub open spec fn spec_button_up(g: GameScene, btn: Button) -> GameScene {
    match btn {
        Button::West => GameScene { input: InputState { rotate_left: false, ..g.input }, ..g },
        Button::South => GameScene { input: InputState { rotate_right: false, ..g.input }, ..g },
        _ => g,
    }
}

/// The game state after an axis event: the sign selects the direction,
/// zero releases both directions of the axis.
pub open spec fn spec_axis_event(g: GameScene, axis: Axis, value: int) -> GameScene {
    match axis {
        Axis::DPadX => if value < 0 {
            GameScene { input: InputState { left: true, ..g.input }, ..g }
        } else if value > 0 {
            GameScene { input: InputState { right: true, ..g.input }, ..g }
        } else {
            GameScene { input: InputState { left: false, right: false, ..g.input }, ..g }
        },
        Axis::DPadY => if value < 0 {
            GameScene { input: InputState { down: true, ..g.input }, ..g }
        } else if value > 0 {
            GameScene { input: InputState { up: true, ..g.input }, ..g }
        } else {
            GameScene { input: InputState { down: false, up: false, ..g.input }, ..g }
        },
        Axis::Other => g,
    }
}

/// What is known of a freshly created game: every deterministic field of
/// `GameScene::new`'s result; the three queued pieces are random kinds
/// but spawn-shaped, at the spawn cell, at base speed.
pub open spec fn spec_fresh_game(g: GameScene) -> bool {
    &&& g.wf()
    &&& g.spec_rows_ok()
    &&& g.falling is None
    &&& g.held is None
    &&& g.projection is None
    &&& g.score == 0
    &&& g.level == 1
    &&& g.lines_cleared == 0
    &&& g.clock == 0
    &&& g.last_action == 0
    &&& g.pause == false
    &&& g.quit == false
    &&& g.input == spec_input_clear()
    &&& forall|r: int, c: int|
        0 <= r < ROWS && 0 <= c < COLUMNS ==> (#[trigger] g.grid.cell(r, c)) is None
    &&& forall|i: int|
        0 <= i < g.next@.len() ==> {
            let p = #[trigger] g.next@[i];
            &&& p.velocity == (Vec2 { x: 0, y: BASE_SPEED })
            &&& p.pos == spec_cell_position(4, 1)
            &&& p.facing == Direction::North
            &&& p.landed == false
        }
}

/// Whether one tick of `dt` frames can run on a scene without its
/// counters overflowing.
pub open spec fn spec_scene_tick_ok(s: Scene, dt: int) -> bool {
    match s {
        Scene::Game(g) => {
            &&& g.clock + TIME_UNITS_PER_FRAME * dt <= u64::MAX
            &&& g.lines_cleared + 4 <= u32::MAX
            &&& (g.lines_cleared as int / 10 + 2) * 1200 + g.score + 100 <= u32::MAX
            &&& spec_dt_ok(g, dt)
        },
        _ => true,
    }
}

/// The stack of scenes; the top one drives the game each tick, and a
/// pop that empties the stack quits.
#[derive(Debug)]
pub struct SceneManager {
    pub scenes: Vec<Scene>,
    pub quit: bool,
}

impl SceneManager {
    pub open spec fn wf(self) -> bool {
        forall|i: int| 0 <= i < self.scenes@.len() ==> (#[trigger] self.scenes@[i]).wf()
    }

    pub fn new() -> (sm: SceneManager)
        ensures
            sm.wf(),
            sm.scenes@.len() == 1,
            sm.scenes@[0] matches Scene::Intro(s) && s.start_game == false,
            sm.quit == false,
    {
        let mut scenes: Vec<Scene> = Vec::new();
        scenes.push(Scene::Intro(IntroScene::new()));
        SceneManager { scenes, quit: false }
    }

    /// Restructure the stack after a tick: `top` is the scene that just
    /// ran (already removed from the stack) and `t` its request.  A swap
    /// replaces it, a push stacks above it, a pop drops it (quitting when
    /// nothing is left), and a reset clears the whole stack before
    /// pushing the new scene.
    pub fn apply_transition(&mut self, top: Scene, t: Option<Transition>)
        requires
            old(self).wf(),
            top.wf(),
            match t {
                Some(tr) => (match tr.scene {
                    Some(sc) => sc.wf(),
                    None => true,
                }) && (tr.transition_type != TransitionType::Pop ==> tr.scene is Some),
                None => true,
            },
        ensures
            final(self).wf(),
            t is None ==> final(self).scenes@ == old(self).scenes@.push(top) && final(self).quit
                == old(self).quit,
            t matches Some(tr) ==> match tr.transition_type {
                TransitionType::Pop => final(self).scenes@ == old(self).scenes@ && final(self).quit == (old(self).quit || old(self).scenes@.len() == 0),
                TransitionType::Push => final(self).scenes@ == old(self).scenes@.push(top).push(
                    tr.scene->0,
                ) && final(self).quit == old(self).quit,
                TransitionType::Swap => final(self).scenes@ == old(self).scenes@.push(tr.scene->0)
                    && final(self).quit == old(self).quit,
                TransitionType::Reset => final(self).scenes@ == seq![tr.scene->0] && final(self).quit == old(self).quit,
            },
    {
        match t {
            None => {
                self.scenes.push(top);
            },
            Some(tr) => {
                match tr.transition_type {
                    TransitionType::Pop => {
                        if self.scenes.len() == 0 {
                            self.quit = true;
                        }
                    },
                    TransitionType::Push => {
                        self.scenes.push(top);
                        self.scenes.push(tr.scene.unwrap());
                    },
                    TransitionType::Swap => {
                        self.scenes.push(tr.scene.unwrap());
                    },
                    TransitionType::Reset => {
                        self.scenes.clear();
                        self.scenes.push(tr.scene.unwrap());
                    },
                }
            },
        }
    }

    /// One driver tick: update the active scene, then apply the
    /// transition it requests.  Only the top scene runs; the scenes
    /// below it keep their state.  An intro that was started is swapped
    /// for a fresh game; a game pushes a game-over or pause overlay
    /// above itself as its transition says; a resumed pause pops,
    /// quitting when it was the only scene; a restarted game-over
    /// resets the whole stack onto a fresh game.
    pub fn update(&mut self, dt: u32)
        requires
            old(self).wf(),
            old(self).scenes@.len() > 0 ==> spec_scene_tick_ok(
                old(self).scenes@.last(),
                dt as int,
            ),
        ensures
            final(self).wf(),
            old(self).scenes@.len() == 0 ==> *final(self) == *old(self),
            final(self).scenes@.len() <= old(self).scenes@.len() + 1,
            old(self).quit ==> final(self).quit,
            old(self).scenes@.len() > 0 ==> ({
                let n = old(self).scenes@.len();
                let below = old(self).scenes@.drop_last();
                match old(self).scenes@.last() {
                    Scene::Intro(s) => {
                        &&& !s.start_game ==> final(self).scenes@ == old(self).scenes@
                            && final(self).quit == old(self).quit
                        &&& s.start_game ==> final(self).quit == old(self).quit && (exists|
                            g2: GameScene,
                        |
                            (#[trigger] spec_fresh_game(g2)) && final(self).scenes@ == below.push(
                                Scene::Game(g2),
                            ))
                    },
                    Scene::Pause(s) => {
                        &&& !s.resume ==> final(self).scenes@ == old(self).scenes@ && final(self).quit == old(self).quit
                        &&& s.resume ==> final(self).scenes@ == below && final(self).quit == (old(self).quit || n == 1)
                    },
                    Scene::GameOver(s) => {
                        &&& !s.restart ==> final(self).scenes@ == old(self).scenes@ && final(self).quit == old(self).quit
                        &&& s.restart ==> final(self).quit == old(self).quit && (exists|
                            g2: GameScene,
                        |
                            (#[trigger] spec_fresh_game(g2)) && final(self).scenes@ == seq![
                                Scene::Game(g2),
                            ])
                    },
                    Scene::Game(g) => {
                        &&& final(self).quit == old(self).quit
                        &&& exists|g2: GameScene|
                            {
                                &&& #[trigger] g2.wf()
                                &&& g2.spec_rows_ok()
                                &&& g2.clock == g.clock + TIME_UNITS_PER_FRAME * dt
                                &&& g2.quit == g.quit
                                &&& g2.input == (InputState { hold: false, ..g.input })
                                &&& g.score <= g2.score
                                &&& g.lines_cleared <= g2.lines_cleared
                                &&& if g2.spec_should_end() {
                                    final(self).scenes@ == below.push(Scene::Game(g2)).push(
                                        Scene::GameOver(GameOverScene { restart: false }),
                                    )
                                } else if g.pause {
                                    g2.pause == false && final(self).scenes@ == below.push(
                                        Scene::Game(g2),
                                    ).push(Scene::Pause(PauseScene { resume: false }))
                                } else {
                                    g2.pause == false && final(self).scenes@ == below.push(
                                        Scene::Game(g2),
                                    )
                                }
                            }
                    },
                }
            }),
    {
        if self.scenes.len() == 0 {
            return;
        }
        let ghost below = old(self).scenes@.drop_last();
        let mut top = self.scenes.pop().unwrap();
        proof {
            assert(self.scenes@ == below);
        }
        let t: Option<Transition> = match &mut top {
            Scene::Intro(s) => {
                s.update();
                s.get_transition()
            },
            Scene::Game(g) => {
                g.update(dt);
                g.get_transition()
            },
            Scene::Pause(s) => {
                s.update();
                s.get_transition()
            },
            Scene::GameOver(s) => {
                s.update();
                s.get_transition()
            },
        };
        let ghost top2 = top;
        self.apply_transition(top, t);
        proof {
            if t is None {
                assert(below.push(old(self).scenes@.last()) =~= old(self).scenes@);
            }
        }
    }

    /// Route a key press to the active scene: the intro starts on any
    /// key; the game applies `spec_key_down` (Escape requesting a quit,
    /// which the stack lifts to its own flag); the overlays quit on
    /// Escape, as the host framework's default handler did.
    pub fn key_down_event(&mut self, keycode: KeyCode)
        requires
            old(self).wf(),
        ensures
            final(self).wf(),
            final(self).scenes@.len() == old(self).scenes@.len(),
            old(self).scenes@.len() == 0 ==> *final(self) == *old(self),
            forall|i: int|
                0 <= i < old(self).scenes@.len() - 1 ==> #[trigger] final(self).scenes@[i] == old(self).scenes@[i],
            old(self).scenes@.len() > 0 ==> ({
                let top = old(self).scenes@.last();
                match top {
                    Scene::Intro(s) => final(self).scenes@.last() == Scene::Intro(
                        IntroScene { start_game: true },
                    ) && final(self).quit == old(self).quit,
                    Scene::Game(g) => final(self).scenes@.last() == Scene::Game(
                        spec_key_down(g, keycode),
                    ) && final(self).quit == (old(self).quit || spec_key_down(g, keycode).quit),
                    Scene::Pause(s) => final(self).scenes@.last() == top && final(self).quit == (
                    old(self).quit || keycode == KeyCode::Escape),
                    Scene::GameOver(s) => final(self).scenes@.last() == top && final(self).quit
                        == (old(self).quit || keycode == KeyCode::Escape),
                }
            }),
    {
        if self.scenes.len() == 0 {
            return;
        }
        let mut top = self.scenes.pop().unwrap();
        match &mut top {
            Scene::Intro(s) => s.key_down_event(keycode),
            Scene::Game(g) => {
                g.key_down_event(keycode);
                if g.quit {
                    self.quit = true;
                }
            },
            Scene::Pause(_) => {
                if keycode == KeyCode::Escape {
                    self.quit = true;
                }
            },
            Scene::GameOver(_) => {
                if keycode == KeyCode::Escape {
                    self.quit = true;
                }
            },
        }
        self.scenes.push(top);
    }

    /// Route a key release: only the game scene reacts.
    pub fn key_up_event(&mut self, keycode: KeyCode)
        requires
            old(self).wf(),
        ensures
            final(self).wf(),
            final(self).scenes@.len() == old(self).scenes@.len(),
            final(self).quit == old(self).quit,
            old(self).scenes@.len() == 0 ==> *final(self) == *old(self),
            forall|i: int|
                0 <= i < old(self).scenes@.len() - 1 ==> #[trigger] final(self).scenes@[i] == old(self).scenes@[i],
            old(self).scenes@.len() > 0 ==> ({
                let top = old(self).scenes@.last();
                match top {
                    Scene::Game(g) => final(self).scenes@.last() == Scene::Game(
                        spec_key_up(g, keycode),
                    ),
                    _ => final(self).scenes@.last() == top,
                }
            }),
    {
        if self.scenes.len() == 0 {
            return;
        }
        let mut top = self.scenes.pop().unwrap();
        match &mut top {
            Scene::Game(g) => g.key_up_event(keycode),
            _ => (),
        }
        self.scenes.push(top);
    }

    /// Route a gamepad button press: the intro starts on any button,
    /// the game applies `spec_button_down`, the pause resumes on Start,
    /// and the game-over screen restarts on any button.
    pub fn gamepad_button_down_event(&mut self, btn: Button)
        requires
            old(self).wf(),
        ensures
            final(self).wf(),
            final(self).scenes@.len() == old(self).scenes@.len(),
            final(self).quit == old(self).quit,
            old(self).scenes@.len() == 0 ==> *final(self) == *old(self),
            forall|i: int|
                0 <= i < old(self).scenes@.len() - 1 ==> #[trigger] final(self).scenes@[i] == old(self).scenes@[i],
            old(self).scenes@.len() > 0 ==> ({
                let top = old(self).scenes@.last();
                match top {
                    Scene::Intro(s) => final(self).scenes@.last() == Scene::Intro(
                        IntroScene { start_game: true },
                    ),
                    Scene::Game(g) => final(self).scenes@.last() == Scene::Game(
                        spec_button_down(g, btn),
                    ),
                    Scene::Pause(s) => final(self).scenes@.last() == Scene::Pause(
                        (PauseScene { resume: s.resume || btn == Button::Start }),
                    ),
                    Scene::GameOver(s) => final(self).scenes@.last() == Scene::GameOver(
                        GameOverScene { restart: true },
                    ),
                }
            }),
    {
        if self.scenes.len() == 0 {
            return;
        }
        let mut top = self.scenes.pop().unwrap();
        match &mut top {
            Scene::Intro(s) => s.gamepad_button_down_event(btn),
            Scene::Game(g) => g.gamepad_button_down_event(btn),
            Scene::Pause(s) => s.gamepad_button_down_event(btn),
            Scene::GameOver(s) => s.gamepad_button_down_event(btn),
        }
        self.scenes.push(top);
    }

    /// Route a gamepad button release: only the game scene reacts.
    pub fn gamepad_button_up_event(&mut self, btn: Button)
        requires
            old(self).wf(),
        ensures
            final(self).wf(),
            final(self).scenes@.len() == old(self).scenes@.len(),
            final(self).quit == old(self).quit,
            old(self).scenes@.len() == 0 ==> *final(self) == *old(self),
            forall|i: int|
                0 <= i < old(self).scenes@.len() - 1 ==> #[trigger] final(self).scenes@[i] == old(self).scenes@[i],
            old(self).scenes@.len() > 0 ==> ({
                let top = old(self).scenes@.last();
                match top {
                    Scene::Game(g) => final(self).scenes@.last() == Scene::Game(
                        spec_button_up(g, btn),
                    ),
                    _ => final(self).scenes@.last() == top,
                }
            }),
    {
        if self.scenes.len() == 0 {
            return;
        }
        let mut top = self.scenes.pop().unwrap();
        match &mut top {
            Scene::Game(g) => g.gamepad_button_up_event(btn),
            _ => (),
        }
        self.scenes.push(top);
    }

    /// Route an axis event: only the game scene reacts, by sign.
    pub fn gamepad_axis_event(&mut self, axis: Axis, value: i64)
        requires
            old(self).wf(),
        ensures
            final(self).wf(),
            final(self).scenes@.len() == old(self).scenes@.len(),
            final(self).quit == old(self).quit,
            old(self).scenes@.len() == 0 ==> *final(self) == *old(self),
            forall|i: int|
                0 <= i < old(self).scenes@.len() - 1 ==> #[trigger] final(self).scenes@[i] == old(self).scenes@[i],
            old(self).scenes@.len() > 0 ==> ({
                let top = old(self).scenes@.last();
                match top {
                    Scene::Game(g) => final(self).scenes@.last() == Scene::Game(
                        spec_axis_event(g, axis, value as int),
                    ),
                    _ => final(self).scenes@.last() == top,
                }
            }),
    {
        if self.scenes.len() == 0 {
            return;
        }
        let mut top = self.scenes.pop().unwrap();
        match &mut top {
            Scene::Game(g) => g.gamepad_axis_event(axis, value),
            _ => (),
        }
        self.scenes.push(top);
    }
}

/// With no input held, one tick leaves the facing, the action timer and
/// the score alone, keeps the horizontal coordinate, and (unless the
/// piece lands) advances the vertical coordinate by exactly velocity
/// times the elapsed frames.
pub proof fn lemma_tick_no_input(g: GridState, p: Piece, now: int, last: int, dt: int)
    ensures
        spec_tick_facing(g, p, spec_input_clear(), now, last, dt) == p.facing,
        spec_tick_score_add(g, p, spec_input_clear(), now, last, dt) == 0,
        spec_tick_last(spec_input_clear(), now, last) == last,
        spec_tick_pos(g, p, spec_input_clear(), now, last, dt).0 == p.pos.x(),
        !spec_tick_landed(g, p, spec_input_clear(), now, last, dt) ==> spec_tick_pos(
            g,
            p,
            spec_input_clear(),
            now,
            last,
            dt,
        ).1 == p.pos.y() + p.velocity.y * dt,
{
}

/// Holding only left, with the input-delay timer expired and the left
/// placement free, moves the piece exactly one cell left while gravity
/// still advances the vertical coordinate; the piece does not land.
pub proof fn lemma_tick_left(g: GridState, p: Piece, now: int, last: int, dt: int)
    requires
        now - last >= INPUT_DELAY,
        g.spec_valid(
            p.piece_type,
            p.facing,
            p.pos.x() - SUBUNITS,
            p.pos.y() + p.velocity.y * dt,
        ),
    ensures
        spec_tick_pos(g, p, (InputState { left: true, ..spec_input_clear() }), now, last, dt)
            == (p.pos.x() - SUBUNITS, p.pos.y() + p.velocity.y * dt),
        !spec_tick_landed(g, p, (InputState { left: true, ..spec_input_clear() }), now, last, dt),
        spec_tick_facing(g, p, (InputState { left: true, ..spec_input_clear() }), now, last, dt)
            == p.facing,
        spec_tick_score_add(
            g,
            p,
            (InputState { left: true, ..spec_input_clear() }),
            now,
            last,
            dt,
        ) == 0,
{
}

/// Holding only right is symmetric: exactly one cell right.
pub proof fn lemma_tick_right(g: GridState, p: Piece, now: int, last: int, dt: int)
    requires
        now - last >= INPUT_DELAY,
        g.spec_valid(
            p.piece_type,
            p.facing,
            p.pos.x() + SUBUNITS,
            p.pos.y() + p.velocity.y * dt,
        ),
    ensures
        spec_tick_pos(g, p, (InputState { right: true, ..spec_input_clear() }), now, last, dt)
            == (p.pos.x() + SUBUNITS, p.pos.y() + p.velocity.y * dt),
        !spec_tick_landed(g, p, (InputState { right: true, ..spec_input_clear() }), now, last, dt),
        spec_tick_facing(g, p, (InputState { right: true, ..spec_input_clear() }), now, last, dt)
            == p.facing,
        spec_tick_score_add(
            g,
            p,
            (InputState { right: true, ..spec_input_clear() }),
            now,
            last,
            dt,
        ) == 0,
{
}

/// Holding only soft drop, with the delay expired and the row below
/// free, snaps the piece down to the next whole row below the
/// gravity-advanced position while the horizontal coordinate stays.
pub proof fn lemma_tick_down(g: GridState, p: Piece, now: int, last: int, dt: int)
    requires
        now - last >= INPUT_DELAY,
        g.spec_valid(
            p.piece_type,
            p.facing,
            p.pos.x(),
            spec_move_down_y(p.pos.y() + p.velocity.y * dt),
        ),
    ensures
        spec_tick_pos(g, p, (InputState { down: true, ..spec_input_clear() }), now, last, dt)
            == (p.pos.x(), spec_move_down_y(p.pos.y() + p.velocity.y * dt)),
        !spec_tick_landed(g, p, (InputState { down: true, ..spec_input_clear() }), now, last, dt),
        spec_tick_facing(g, p, (InputState { down: true, ..spec_input_clear() }), now, last, dt)
            == p.facing,
{
}

/// For a coordinate that is not on a whole row, the downward step lands
/// on its ceiling: the least whole row strictly above it.
pub proof fn lemma_move_down_is_ceil(y: int)
    requires
        y % (SUBUNITS as int) != 0,
    ensures
        spec_move_down_y(y) % (SUBUNITS as int) == 0,
        y < spec_move_down_y(y) < y + SUBUNITS,
{
    vstd::arithmetic::div_mod::lemma_fundamental_div_mod(y, SUBUNITS as int);
    vstd::arithmetic::div_mod::lemma_mod_multiples_basic(
        y / (SUBUNITS as int) + 1,
        SUBUNITS as int,
    );
}

} // verus!

