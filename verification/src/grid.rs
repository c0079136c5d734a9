use vstd::prelude::*;

use crate::constants::{COLUMNS, ROWS};
use crate::piece::{in_anchor_range, spec_block_point, spec_offset, Block, Direction, Piece, PieceType};
use crate::position::{lemma_round_exact, spec_cell_position, spec_round_to_cell, Position};
use crate::types::GridPosition;

verus! {

/// The board of locked blocks: ROWS x COLUMNS cells kept row-major, so
/// cell (row r, column c) sits at index r * COLUMNS + c.
#[derive(Debug, Clone)]
pub struct GridState {
    pub cells: Vec<Option<Block>>,
}

/// A cell copied into row `j`, column `c` by row compaction: a block that
/// moved is re-anchored exactly on its new cell.
pub open spec fn spec_moved_cell(cell: Option<Block>, c: int, j: int) -> Option<Block> {
    match cell {
        Some(b) => Some(Block { piece_type: b.piece_type, pos: spec_cell_position(c, j) }),
        None => None,
    }
}

impl GridState {
    pub open spec fn cell(self, r: int, c: int) -> Option<Block> {
        self.cells@[r * (COLUMNS as int) + c]
    }

    /// Every stored block sits in the cell its position rounds to.
    pub open spec fn wf(self) -> bool {
        &&& self.cells@.len() == ROWS * COLUMNS
        &&& forall|r: int, c: int|
            0 <= r < ROWS && 0 <= c < COLUMNS ==> match #[trigger] self.cell(r, c) {
                Some(b) => b.pos.wf() && b.pos.grid_pos.x == c && b.pos.grid_pos.y == r,
                None => true,
            }
    }

    pub open spec fn spec_row_full(self, r: int) -> bool {
        forall|c: int| 0 <= c < COLUMNS ==> (#[trigger] self.cell(r, c)) is Some
    }

    /// The indices of the rows from `r` down that are not full, in order.
    pub open spec fn spec_kept_from(self, r: int) -> Seq<int>
        decreases ROWS as int - r,
    {
        if r >= ROWS as int {
            Seq::empty()
        } else if self.spec_row_full(r) {
            self.spec_kept_from(r + 1)
        } else {
            seq![r].add(self.spec_kept_from(r + 1))
        }
    }

    /// How many rows of the board are full.
    pub open spec fn spec_full_count(self) -> int {
        ROWS as int - self.spec_kept_from(0).len()
    }

    /// Does block `i` of a piece of kind `t`, facing `f`, anchored at the
    /// continuous point (x, y), respect the board?  Its row must not reach
    /// the bottom, its column must be on the board, and a cell inside the
    /// board must be empty; rows above the board (negative) are allowed.
    pub open spec fn spec_block_ok(self, t: PieceType, f: Direction, x: int, y: int, i: int) -> bool {
        let p = spec_block_point(x, y, f, spec_offset(t, i));
        let gx = spec_round_to_cell(p.0);
        let gy = spec_round_to_cell(p.1);
        &&& gy < ROWS
        &&& 0 <= gx < COLUMNS
        &&& (0 <= gy ==> self.cell(gy, gx) is None)
    }

    /// A placement is valid when all four blocks respect the board.
    pub open spec fn spec_valid(self, t: PieceType, f: Direction, x: int, y: int) -> bool {
        forall|i: int| 0 <= i < 4 ==> self.spec_block_ok(t, f, x, y, i)
    }

    pub fn new() -> (g: GridState)
        ensures
            g.wf(),
            forall|r: int, c: int|
                0 <= r < ROWS && 0 <= c < COLUMNS ==> (#[trigger] g.cell(r, c)) is None,
    {
        let mut cells: Vec<Option<Block>> = Vec::new();
        let mut i: usize = 0;
        while i < ROWS * COLUMNS
            invariant
                i <= ROWS * COLUMNS,
                cells@.len() == i,
                forall|k: int| 0 <= k < i ==> (#[trigger] cells@[k]) is None,
            decreases ROWS * COLUMNS - i,
        {
            cells.push(None);
            i = i + 1;
        }
        GridState { cells }
    }

    pub fn get_cell(&self, row: usize, col: usize) -> (cell: Option<Block>)
        requires
            self.wf(),
            row < ROWS,
            col < COLUMNS,
        ensures
            cell == self.cell(row as int, col as int),
    {
        self.cells[row * COLUMNS + col]
    }

    pub fn set_cell(&mut self, row: usize, col: usize, cell: Option<Block>)
        requires
            old(self).wf(),
            row < ROWS,
            col < COLUMNS,
            match cell {
                Some(b) => b.pos.wf() && b.pos.grid_pos.x == col && b.pos.grid_pos.y == row,
                None => true,
            },
        ensures
            final(self).wf(),
            final(self).cell(row as int, col as int) == cell,
            forall|r: int, c: int|
                0 <= r < ROWS && 0 <= c < COLUMNS && !(r == row && c == col)
                    ==> #[trigger] final(self).cell(r, c) == old(self).cell(r, c),
    {
        self.cells.set(row * COLUMNS + col, cell);
        proof {
            lemma_cell_index_injective();
            assert forall|r: int, c: int|
                0 <= r < ROWS && 0 <= c < COLUMNS && !(r == row && c == col)
                    implies #[trigger] self.cell(r, c) == old(self).cell(r, c) by {
                assert(r * (COLUMNS as int) + c != (row as int) * (COLUMNS as int) + col);
            }
        }
    }

    /// True iff every block of the piece, anchored at `pos`, respects the
    /// board.
    pub fn is_valid_position(&self, p: &Piece, pos: &Position) -> (r: bool)
        requires
            self.wf(),
            p.wf(),
            pos.wf(),
            in_anchor_range(pos.x()),
            in_anchor_range(pos.y()),
        ensures
            r == self.spec_valid(p.piece_type, p.facing, pos.x(), pos.y()),
    {
        let blocks = p.get_blocks(pos);
        let mut i: usize = 0;
        while i < 4
            invariant
                self.wf(),
                blocks@.len() == 4,
                i <= 4,
                forall|j: int|
                    0 <= j < 4 ==> {
                        let b = #[trigger] blocks@[j];
                        b.pos.wf() && (b.pos.x(), b.pos.y()) == spec_block_point(
                            pos.x(),
                            pos.y(),
                            p.facing,
                            spec_offset(p.piece_type, j),
                        )
                    },
                forall|j: int| 0 <= j < i ==> self.spec_block_ok(p.piece_type, p.facing, pos.x(), pos.y(), j),
            decreases 4 - i,
        {
            let gp = blocks[i].pos.grid_position();
            if gp.y >= ROWS as i64 {
                assert(!self.spec_block_ok(p.piece_type, p.facing, pos.x(), pos.y(), i as int));
                return false;
            }
            if gp.x < 0 || gp.x >= COLUMNS as i64 {
                assert(!self.spec_block_ok(p.piece_type, p.facing, pos.x(), pos.y(), i as int));
                return false;
            }
            if gp.y >= 0 {
                if self.cells[(gp.y as usize) * COLUMNS + (gp.x as usize)].is_some() {
                    assert(!self.spec_block_ok(p.piece_type, p.facing, pos.x(), pos.y(), i as int));
                    return false;
                }
            }
            assert(self.spec_block_ok(p.piece_type, p.facing, pos.x(), pos.y(), i as int));
            i = i + 1;
        }
        true
    }

    fn row_full(&self, r: usize) -> (b: bool)
        requires
            self.wf(),
            r < ROWS,
        ensures
            b == self.spec_row_full(r as int),
    {
        let mut c: usize = 0;
        while c < COLUMNS
            invariant
                self.wf(),
                r < ROWS,
                c <= COLUMNS,
                forall|k: int| 0 <= k < c ==> (#[trigger] self.cell(r as int, k)) is Some,
            decreases COLUMNS - c,
        {
            if self.cells[r * COLUMNS + c].is_none() {
                assert(!((self.cell(r as int, c as int)) is Some));
                return false;
            }
            c = c + 1;
        }
        true
    }

    /// Remove every full row, let the rows above fall by one for each, and
    /// re-anchor the blocks of rows that moved; returns how many rows were
    /// removed.
    pub fn clear_full_rows(&mut self) -> (n: usize)
        requires
            old(self).wf(),
        ensures
            final(self).wf(),
            n as int == old(self).spec_full_count(),
            spec_cleared(*old(self), *final(self)),
            n == 0 ==> *final(self) == *old(self),
    {
        proof {
            lemma_kept_from_props(*self, 0);
        }
        let mut any_full = false;
        let mut rr: usize = 0;
        while rr < ROWS
            invariant
                self.wf(),
                *self == *old(self),
                rr <= ROWS,
                any_full == exists|j: int| 0 <= j < rr && #[trigger] self.spec_row_full(j),
            decreases ROWS - rr,
        {
            if self.row_full(rr) {
                any_full = true;
            }
            rr = rr + 1;
        }
        if !any_full {
            proof {
                lemma_no_full_rows_count(*self);
                assert forall|j: int, c: int| 0 <= j < ROWS && 0 <= c < COLUMNS implies #[trigger] self.cell(
                    j,
                    c,
                ) == spec_suffix_cell(*self, 0, j, c) by {
                    let kept = self.spec_kept_from(0);
                    assert(kept[j] == j);
                }
            }
            return 0;
        }
        let ghost g0 = *self;
        let mut new_cells: Vec<Option<Block>> = Vec::new();
        let mut i: usize = 0;
        while i < ROWS * COLUMNS
            invariant
                i <= ROWS * COLUMNS,
                new_cells@.len() == i,
                forall|k: int| 0 <= k < i ==> (#[trigger] new_cells@[k]) is None,
            decreases ROWS * COLUMNS - i,
        {
            new_cells.push(None);
            i = i + 1;
        }

        let mut wr: usize = ROWS;
        let mut r: usize = ROWS;
        while r > 0
            invariant
                *self == g0,
                g0.wf(),
                new_cells@.len() == ROWS * COLUMNS,
                r <= ROWS,
                wr <= ROWS,
                wr as int == ROWS as int - g0.spec_kept_from(r as int).len(),
                forall|j: int, c: int|
                    wr <= j < ROWS && 0 <= c < COLUMNS
                        ==> #[trigger] new_cells@[j * (COLUMNS as int) + c] == spec_suffix_cell(
                        g0,
                        r as int,
                        j,
                        c,
                    ),
                forall|j: int, c: int|
                    0 <= j < wr && 0 <= c < COLUMNS
                        ==> (#[trigger] new_cells@[j * (COLUMNS as int) + c]) is None,
            decreases r,
        {
            proof {
                lemma_kept_from_props(g0, r as int - 1);
                lemma_kept_from_props(g0, r as int);
            }
            r = r - 1;
            if !self.row_full(r) {
                wr = wr - 1;
                let ghost kept = g0.spec_kept_from(r as int);
                assert(kept[0] == r as int);
                assert(forall|k: int|
                    1 <= k < kept.len() ==> kept[k] == #[trigger] g0.spec_kept_from(
                        r as int + 1,
                    )[k - 1]);
                let mut c: usize = 0;
                while c < COLUMNS
                    invariant
                        *self == g0,
                        g0.wf(),
                        new_cells@.len() == ROWS * COLUMNS,
                        r < ROWS,
                        wr < ROWS,
                        r <= wr,
                        c <= COLUMNS,
                        wr as int == ROWS as int - g0.spec_kept_from(r as int).len(),
                        !g0.spec_row_full(r as int),
                        forall|j: int, cc: int|
                            wr < j < ROWS && 0 <= cc < COLUMNS
                                ==> #[trigger] new_cells@[j * (COLUMNS as int) + cc]
                                == spec_suffix_cell(g0, r as int, j, cc),
                        forall|cc: int|
                            0 <= cc < c ==> #[trigger] new_cells@[wr * (COLUMNS as int) + cc]
                                == spec_suffix_cell(g0, r as int, wr as int, cc),
                        forall|cc: int|
                            c <= cc < COLUMNS ==> (#[trigger] new_cells@[wr * (COLUMNS as int)
                                + cc]) is None,
                        forall|j: int, cc: int|
                            0 <= j < wr && 0 <= cc < COLUMNS
                                ==> (#[trigger] new_cells@[j * (COLUMNS as int) + cc]) is None,
                    decreases COLUMNS - c,
                {
                    let src = self.cells[r * COLUMNS + c];
                    let v: Option<Block> = if r == wr {
                        src
                    } else {
                        match src {
                            Some(b) => Some(
                                Block {
                                    piece_type: b.piece_type,
                                    pos: Position::from_grid_position(
                                        GridPosition::new(c as i64, wr as i64),
                                    ),
                                },
                            ),
                            None => None,
                        }
                    };
                    new_cells.set(wr * COLUMNS + c, v);
                    proof {
                        lemma_cell_index_injective();
                        assert(new_cells@[wr * (COLUMNS as int) + c] == spec_suffix_cell(
                            g0,
                            r as int,
                            wr as int,
                            c as int,
                        ));
                    }
                    c = c + 1;
                }
            } else {
                assert(g0.spec_kept_from(r as int) == g0.spec_kept_from(r as int + 1));
            }
        }
        proof {
            lemma_cell_index_injective();
        }
        let n = wr;
        proof {
            if n == 0 {
                let j = choose|j: int| 0 <= j < ROWS && #[trigger] g0.spec_row_full(j);
                assert(g0.spec_kept_from(0)[j] == j);
                assert(false);
            }
        }
        self.cells = new_cells;
        proof {
            lemma_kept_from_props(g0, 0);
            assert forall|j: int, c: int| 0 <= j < ROWS && 0 <= c < COLUMNS implies match #[trigger] self.cell(
                j,
                c,
            ) {
                Some(b) => b.pos.wf() && b.pos.grid_pos.x == c && b.pos.grid_pos.y == j,
                None => true,
            } by {
                if n <= j {
                    let kept = g0.spec_kept_from(0);
                    let src = kept[j - n];
                    lemma_round_exact(c);
                    lemma_round_exact(j);
                    assert(self.cell(j, c) == spec_suffix_cell(g0, 0, j, c));
                }
            }
        }
        n
    }
}

/// Cell indices are distinct for distinct (row, column) pairs.
proof fn lemma_cell_index_injective()
    ensures
        forall|r1: int, c1: int, r2: int, c2: int|
            #![trigger r1 * (COLUMNS as int) + c1, r2 * (COLUMNS as int) + c2]
            0 <= c1 < COLUMNS && 0 <= c2 < COLUMNS && (r1 != r2 || c1 != c2)
                ==> r1 * (COLUMNS as int) + c1 != r2 * (COLUMNS as int) + c2,
{
    assert forall|r1: int, c1: int, r2: int, c2: int|
        #![trigger r1 * (COLUMNS as int) + c1, r2 * (COLUMNS as int) + c2]
        0 <= c1 < COLUMNS && 0 <= c2 < COLUMNS && (r1 != r2 || c1 != c2) implies r1 * (
    COLUMNS as int) + c1 != r2 * (COLUMNS as int) + c2 by {
        if r1 != r2 {
            assert(r1 * (COLUMNS as int) != r2 * (COLUMNS as int)) by (nonlinear_arith)
                requires
                    r1 != r2,
            ;
            if r1 < r2 {
                assert((r1 + 1) * (COLUMNS as int) <= r2 * (COLUMNS as int)) by (nonlinear_arith)
                    requires
                        r1 + 1 <= r2,
                ;
            } else {
                assert((r2 + 1) * (COLUMNS as int) <= r1 * (COLUMNS as int)) by (nonlinear_arith)
                    requires
                        r2 + 1 <= r1,
                ;
            }
        }
    }
}

/// Where the cells of row `j` come from once the rows from `r` down have
/// been compacted toward the bottom of the board.
pub open spec fn spec_suffix_cell(g0: GridState, r: int, j: int, c: int) -> Option<Block> {
    let kept = g0.spec_kept_from(r);
    let base = ROWS as int - kept.len();
    let src = kept[j - base];
    if src == j {
        g0.cell(src, c)
    } else {
        spec_moved_cell(g0.cell(src, c), c, j)
    }
}

/// `g1` is `g0` with every full row removed: the bottom rows are the
/// non-full rows of `g0` in order (blocks of rows that moved re-anchored
/// on their new cells) and the top rows are empty.
pub open spec fn spec_cleared(g0: GridState, g1: GridState) -> bool {
    let n = g0.spec_full_count();
    forall|j: int, c: int|
        0 <= j < ROWS && 0 <= c < COLUMNS ==> #[trigger] g1.cell(j, c) == if j < n {
            None
        } else {
            spec_suffix_cell(g0, 0, j, c)
        }
}

/// Shape of `spec_kept_from`: it lists, in ascending order, at most
/// ROWS - r indices, each a non-full row in [r, ROWS); the k-th listed
/// row lies at most as many rows below r + k as there are full rows in
/// the suffix (so with no full row, the list is the identity).
pub proof fn lemma_kept_from_props(g: GridState, r: int)
    requires
        0 <= r <= ROWS as int,
    ensures
        g.spec_kept_from(r).len() <= ROWS as int - r,
        forall|k: int|
            0 <= k < g.spec_kept_from(r).len() ==> {
                let v = #[trigger] g.spec_kept_from(r)[k];
                &&& r <= v < ROWS as int
                &&& !g.spec_row_full(v)
                &&& v >= r + k
                &&& v <= r + k + ((ROWS as int - r) - g.spec_kept_from(r).len())
            },
    decreases ROWS as int - r,
{
    if r < ROWS as int {
        lemma_kept_from_props(g, r + 1);
        if !g.spec_row_full(r) {
            let s = g.spec_kept_from(r);
            assert(s[0] == r);
            assert(forall|k: int|
                1 <= k < s.len() ==> s[k] == #[trigger] g.spec_kept_from(r + 1)[k - 1]);
        }
    }
}

spec fn spec_row_hit(v: int, r: int) -> int {
    if r <= v < ROWS as int {
        1
    } else {
        0
    }
}

proof fn lemma_kept_len_ge(g: GridState, r: int, a: int, b: int, c: int, d: int)
    requires
        0 <= r <= ROWS as int,
        forall|j: int|
            r <= j < ROWS as int && #[trigger] g.spec_row_full(j) ==> j == a || j == b || j == c
                || j == d,
    ensures
        g.spec_kept_from(r).len() >= (ROWS as int - r) - (spec_row_hit(a, r) + spec_row_hit(b, r)
            + spec_row_hit(c, r) + spec_row_hit(d, r)),
    decreases ROWS as int - r,
{
    if r < ROWS as int {
        lemma_kept_len_ge(g, r + 1, a, b, c, d);
    }
}

/// If every full row of the board holds one of four given rows, at most
/// four rows are full.
pub proof fn lemma_full_count_le(g: GridState, a: int, b: int, c: int, d: int)
    requires
        forall|j: int|
            0 <= j < ROWS as int && #[trigger] g.spec_row_full(j) ==> j == a || j == b || j == c
                || j == d,
    ensures
        g.spec_full_count() <= 4,
{
    lemma_kept_len_ge(g, 0, a, b, c, d);
}

/// A placement that puts any block over an occupied cell, in a column
/// off the board, or in a row at or below the bottom edge, is invalid.
pub proof fn lemma_invalid_placement(
    g: GridState,
    t: PieceType,
    f: Direction,
    x: int,
    y: int,
    i: int,
)
    requires
        0 <= i < 4,
        ({
            let p = spec_block_point(x, y, f, spec_offset(t, i));
            let gx = spec_round_to_cell(p.0);
            let gy = spec_round_to_cell(p.1);
            ||| gy >= ROWS
            ||| gx < 0
            ||| gx >= COLUMNS
            ||| (0 <= gy < ROWS && 0 <= gx < COLUMNS && g.cell(gy, gx) is Some)
        }),
    ensures
        !g.spec_valid(t, f, x, y),
{
    assert(!g.spec_block_ok(t, f, x, y, i));
}

/// A board with no full row has nothing to clear.
pub proof fn lemma_no_full_rows_count(g: GridState)
    requires
        forall|j: int| 0 <= j < ROWS as int ==> !(#[trigger] g.spec_row_full(j)),
    ensures
        g.spec_full_count() == 0,
{
    lemma_kept_len_ge(g, 0, -1, -1, -1, -1);
    lemma_kept_from_props(g, 0);
}

} // verus!
