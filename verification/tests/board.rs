use tetris::constants::{COLUMNS, ROWS, SUBUNITS};
use tetris::grid::GridState;
use tetris::piece::{create_random_piece, Block, Direction, PieceType};
use tetris::position::Position;
use tetris::state::GameScene;
use tetris::types::{GridPosition, Point2};

fn block_at(kind: PieceType, col: i64, row: i64) -> Block {
    Block {
        piece_type: kind,
        pos: Position::from_grid_position(GridPosition::new(col, row)),
    }
}

fn fill_row(grid: &mut GridState, row: usize) {
    for c in 0..COLUMNS {
        grid.set_cell(row, c, Some(block_at(PieceType::TShape, c as i64, row as i64)));
    }
}

#[test]
fn rounding_to_cells() {
    assert_eq!(Position::new(0, 59).grid_position().y, 0);
    assert_eq!(Position::new(0, 60).grid_position().y, 1);
    assert_eq!(Position::new(0, -59).grid_position().y, 0);
    // Halves round away from zero, as the continuous original did.
    assert_eq!(Position::new(0, -60).grid_position().y, -1);
    assert_eq!(Position::new(475, 120).grid_position().x, 4);
}

#[test]
fn position_equality_is_by_cell() {
    // Two positions in the same cell compare equal even though their
    // continuous coordinates differ.
    assert_eq!(Position::new(10, 10), Position::new(50, 50));
    assert_ne!(Position::new(10, 10), Position::new(70, 10));
}

#[test]
fn moves_shift_by_whole_cells() {
    let p = Position::from_grid_position(GridPosition::new(4, 1));
    assert_eq!(p.move_left().absolute_position(), Point2::new(3 * SUBUNITS, SUBUNITS));
    assert_eq!(p.move_right().absolute_position(), Point2::new(5 * SUBUNITS, SUBUNITS));
    // Down moves one cell and floors: from a fractional coordinate it
    // snaps to the next whole row.
    let q = Position::new(0, 122);
    assert_eq!(q.move_down().absolute_position().y, 2 * SUBUNITS);
    assert_eq!(p.move_down().absolute_position().y, 2 * SUBUNITS);
}

#[test]
fn valid_position_rejects_occupied_cells() {
    let mut grid = GridState::new();
    let piece = create_random_piece(2);
    // An empty board accepts the spawn placement.
    assert!(grid.is_valid_position(&piece, &piece.pos));
    // Occupy every cell the piece covers; the placement becomes invalid.
    for b in piece.get_blocks(&piece.pos) {
        let g = b.pos.grid_position();
        if g.x >= 0 && g.y >= 0 {
            grid.set_cell(
                g.y as usize,
                g.x as usize,
                Some(block_at(PieceType::OShape, g.x, g.y)),
            );
        }
    }
    assert!(!grid.is_valid_position(&piece, &piece.pos));
}

#[test]
fn valid_position_rejects_columns_off_the_board() {
    let grid = GridState::new();
    let piece = create_random_piece(2);
    let left = Position::from_grid_position(GridPosition::new(-2, 1));
    let right = Position::from_grid_position(GridPosition::new(COLUMNS as i64 + 1, 1));
    assert!(!grid.is_valid_position(&piece, &left));
    assert!(!grid.is_valid_position(&piece, &right));
}

#[test]
fn valid_position_rejects_bottom_overflow_but_not_top() {
    let grid = GridState::new();
    let piece = create_random_piece(2);
    let below = Position::from_grid_position(GridPosition::new(4, ROWS as i64));
    assert!(!grid.is_valid_position(&piece, &below));
    // Rows above the board are allowed: pieces may straddle the top edge.
    let above = Position::from_grid_position(GridPosition::new(4, -2));
    assert!(grid.is_valid_position(&piece, &above));
}

#[test]
fn clearing_one_row_scores_forty() {
    let mut scene = GameScene::new();
    fill_row(&mut scene.grid, ROWS - 1);
    scene.grid.set_cell(
        ROWS - 2,
        3,
        Some(block_at(PieceType::IShape, 3, ROWS as i64 - 2)),
    );
    scene.clear_full_rows();
    assert_eq!(scene.lines_cleared, 1);
    assert_eq!(scene.level, 1);
    assert_eq!(scene.score, 40);
    // The partial row above the cleared one fell by one row.
    assert!(scene.grid.get_cell(ROWS - 1, 3).is_some());
    assert!(scene.grid.get_cell(ROWS - 2, 3).is_none());
    for c in 0..COLUMNS {
        if c != 3 {
            assert!(scene.grid.get_cell(ROWS - 1, c).is_none());
        }
    }
}

#[test]
fn clearing_multiple_rows_uses_classic_scores() {
    let mut scene = GameScene::new();
    fill_row(&mut scene.grid, ROWS - 1);
    fill_row(&mut scene.grid, ROWS - 2);
    scene.clear_full_rows();
    assert_eq!(scene.lines_cleared, 2);
    assert_eq!(scene.score, 100);

    let mut scene4 = GameScene::new();
    for r in 0..4 {
        fill_row(&mut scene4.grid, ROWS - 1 - r);
    }
    scene4.clear_full_rows();
    assert_eq!(scene4.lines_cleared, 4);
    assert_eq!(scene4.score, 1200);
    for r in 0..ROWS {
        for c in 0..COLUMNS {
            assert!(scene4.grid.get_cell(r, c).is_none());
        }
    }
}

#[test]
fn clearing_raises_the_level() {
    let mut scene = GameScene::new();
    scene.lines_cleared = 9;
    scene.level = 1;
    fill_row(&mut scene.grid, ROWS - 1);
    scene.clear_full_rows();
    assert_eq!(scene.lines_cleared, 10);
    assert_eq!(scene.level, 2);
    // The new level multiplies the per-clear value.
    assert_eq!(scene.score, 80);
}

#[test]
fn clearing_nothing_changes_nothing() {
    let mut scene = GameScene::new();
    scene.grid.set_cell(5, 5, Some(block_at(PieceType::RShape, 5, 5)));
    scene.clear_full_rows();
    assert_eq!(scene.lines_cleared, 0);
    assert_eq!(scene.score, 0);
    assert!(scene.grid.get_cell(5, 5).is_some());
}

#[test]
fn rotation_cycles_except_o_shape() {
    let mut p = create_random_piece(2);
    assert_eq!(p.facing, Direction::North);
    p.rotate_cw();
    if p.piece_type == PieceType::OShape {
        assert_eq!(p.facing, Direction::North);
    } else {
        assert_eq!(p.facing, Direction::East);
        p.rotate_ccw();
        assert_eq!(p.facing, Direction::North);
        p.rotate_ccw();
        assert_eq!(p.facing, Direction::West);
    }
}

fn default_offsets(kind: PieceType) -> [(i64, i64); 4] {
    match kind {
        PieceType::IShape => [(-1, 0), (0, 0), (1, 0), (2, 0)],
        PieceType::OShape => [(0, 0), (0, -1), (1, 0), (1, -1)],
        PieceType::LShape => [(-1, 0), (0, 0), (1, 0), (1, -1)],
        PieceType::LShapeInverted => [(-1, 0), (0, 0), (1, 0), (1, 1)],
        PieceType::RShape => [(1, 0), (0, 0), (0, -1), (-1, -1)],
        PieceType::RShapeInverted => [(-1, 0), (0, 0), (0, -1), (1, -1)],
        PieceType::TShape => [(-1, 0), (0, 0), (1, 0), (0, -1)],
    }
}

#[test]
fn blocks_follow_the_facing_rotation() {
    let p = create_random_piece(2);
    let blocks = p.get_blocks(&p.pos);
    assert_eq!(blocks.len(), 4);
    let offs = default_offsets(p.piece_type);
    for (i, b) in blocks.iter().enumerate() {
        // Facing North turns an offset (dx, dy) into (-dy, dx).
        let (dx, dy) = offs[i];
        let g = b.pos.grid_position();
        assert_eq!(b.piece_type, p.piece_type);
        assert_eq!(g.x, 4 - dy);
        assert_eq!(g.y, 1 + dx);
    }
}

#[test]
fn should_end_on_blocked_top_rows() {
    let mut scene = GameScene::new();
    assert!(!scene.should_end());
    scene.grid.set_cell(1, 4, Some(block_at(PieceType::LShape, 4, 1)));
    assert!(scene.should_end());
}
