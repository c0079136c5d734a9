use tetris::constants::{INPUT_DELAY, SUBUNITS};
use tetris::piece::PieceType;
use tetris::state::GameScene;

// One tick of the fixed-timestep loop lasts one frame (1/60 s).
const DT: u32 = 1;

#[test]
fn create_new_piece_calls_if_none() {
    let mut state = GameScene::new();
    state.create_new_piece();
    assert!(state.falling.is_some());
}

#[test]
fn no_falling_piece_at_start() {
    let state = GameScene::new();
    assert!(state.falling.is_none());
}

#[test]
fn piece_position_falling() {
    let mut state = GameScene::new();
    state.create_new_piece();
    let initial_pos = state.falling.as_ref().unwrap().pos;
    state.update_piece_position(DT);
    let p = state.falling.unwrap();

    assert_eq!(
        p.pos.absolute_position().y,
        initial_pos.absolute_position().y + p.velocity.y * DT as i64
    );
    assert_eq!(p.pos.absolute_position().x, initial_pos.absolute_position().x);
}

#[test]
fn piece_position_left_input() {
    let mut state = GameScene::new();
    state.create_new_piece();
    let initial_pos = state.falling.as_ref().unwrap().pos;
    state.input.left = true;
    state.clock = INPUT_DELAY;
    state.last_action = 0;
    state.update_piece_position(DT);
    let p = state.falling.unwrap();

    assert_eq!(
        p.pos.absolute_position().y,
        initial_pos.absolute_position().y + p.velocity.y * DT as i64
    );
    assert_eq!(
        p.pos.absolute_position().x,
        initial_pos.absolute_position().x - SUBUNITS
    );
}

#[test]
fn piece_position_right_input() {
    let mut state = GameScene::new();
    state.create_new_piece();
    let initial_pos = state.falling.as_ref().unwrap().pos;
    state.input.right = true;
    state.clock = INPUT_DELAY;
    state.last_action = 0;
    state.update_piece_position(DT);
    let p = state.falling.unwrap();

    assert_eq!(
        p.pos.absolute_position().y,
        initial_pos.absolute_position().y + p.velocity.y * DT as i64
    );
    assert_eq!(
        p.pos.absolute_position().x,
        initial_pos.absolute_position().x + SUBUNITS
    );
}

#[test]
fn piece_position_soft_down_input() {
    let mut state = GameScene::new();
    state.create_new_piece();
    let initial_pos = state.falling.as_ref().unwrap().pos;
    state.input.down = true;
    state.clock = INPUT_DELAY;
    state.last_action = 0;
    state.update_piece_position(DT);
    let p = state.falling.unwrap();

    // The soft drop snaps the gravity-advanced coordinate up to the next
    // whole row: its ceiling, since the advanced coordinate is fractional.
    let advanced = initial_pos.absolute_position().y + p.velocity.y * DT as i64;
    let ceil = (advanced / SUBUNITS + 1) * SUBUNITS;
    assert!(advanced % SUBUNITS != 0);
    assert_eq!(p.pos.absolute_position().y, ceil);
    assert_eq!(p.pos.absolute_position().x, initial_pos.absolute_position().x);
}

#[test]
fn spawned_piece_is_at_spawn_cell() {
    let mut state = GameScene::new();
    state.create_new_piece();
    let p = state.falling.as_ref().unwrap();
    let g = p.pos.grid_position();
    assert_eq!(g.x, 4);
    assert_eq!(g.y, 1);
    assert!(!p.landed);
    assert_eq!(p.velocity.x, 0);
    assert_eq!(p.velocity.y, 2);
}

#[test]
fn hold_swap_exchanges_pieces() {
    let mut state = GameScene::new();
    state.create_new_piece();
    let falling = state.falling.as_ref().unwrap().piece_type;
    state.input.hold = true;
    state.swap_hold();
    assert!(!state.input.hold);
    assert!(state.falling.is_none());
    assert_eq!(state.held.as_ref().unwrap().piece_type, falling);
    state.input.hold = true;
    state.swap_hold();
    assert_eq!(state.falling.as_ref().unwrap().piece_type, falling);
    assert!(state.held.is_none());
}

#[test]
fn hard_drop_lands_and_scores() {
    let mut state = GameScene::new();
    state.create_new_piece();
    let kind = state.falling.as_ref().unwrap().piece_type;
    state.input.up = true;
    state.clock = INPUT_DELAY;
    state.last_action = 0;
    state.update_piece_position(DT);
    // The piece fell to the bottom, landed, and was locked into the grid.
    assert!(state.falling.is_none());
    assert!(state.projection.is_none());
    // One point per row dropped: 21 rows, or 20 for the I piece whose
    // default-facing blocks reach one row lower.
    if kind == PieceType::IShape {
        assert_eq!(state.score, 20);
    } else {
        assert_eq!(state.score, 21);
    }
    let mut locked: usize = 0;
    for r in 0..24 {
        for c in 0..10 {
            if state.grid.get_cell(r, c).is_some() {
                locked += 1;
            }
        }
    }
    assert_eq!(locked, 4);
}

#[test]
fn no_movement_before_delay() {
    let mut state = GameScene::new();
    state.create_new_piece();
    let initial_pos = state.falling.as_ref().unwrap().pos;
    state.input.left = true;
    // Clock equals last action: the movement delay has not expired.
    state.clock = 0;
    state.last_action = 0;
    state.update_piece_position(DT);
    let p = state.falling.unwrap();
    assert_eq!(p.pos.absolute_position().x, initial_pos.absolute_position().x);
}

#[test]
fn update_advances_clock_and_spawns() {
    let mut state = GameScene::new();
    state.update(DT);
    assert_eq!(state.clock, 2);
    assert!(state.falling.is_some());
    assert!(state.projection.is_some());
    assert_eq!(state.score, 0);
    assert_eq!(state.level, 1);
}
