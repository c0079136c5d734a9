use tetris::piece::{Block, PieceType};
use tetris::position::Position;
use tetris::state::{
    Axis, Button, GameScene, InputState, KeyCode, PauseScene, Scene, SceneManager, Transition,
    TransitionType,
};
use tetris::types::GridPosition;

#[test]
fn manager_starts_on_the_intro() {
    let sm = SceneManager::new();
    assert_eq!(sm.scenes.len(), 1);
    assert!(matches!(sm.scenes[0], Scene::Intro(_)));
    assert!(!sm.quit);
}

#[test]
fn intro_swaps_to_game_on_key() {
    let mut sm = SceneManager::new();
    sm.key_down_event(KeyCode::Other);
    sm.update(1);
    assert_eq!(sm.scenes.len(), 1);
    assert!(matches!(sm.scenes[0], Scene::Game(_)));
    assert!(!sm.quit);
}

#[test]
fn reset_clears_the_whole_stack() {
    let mut sm = SceneManager::new();
    sm.scenes.push(Scene::Pause(PauseScene::new()));
    sm.scenes.push(Scene::Pause(PauseScene::new()));
    let top = sm.scenes.pop().unwrap();
    let t = Transition {
        transition_type: TransitionType::Reset,
        scene: Some(Scene::Game(GameScene::new())),
    };
    sm.apply_transition(top, Some(t));
    // The stack was cleared before the new scene was pushed.
    assert_eq!(sm.scenes.len(), 1);
    assert!(matches!(sm.scenes[0], Scene::Game(_)));
    assert!(!sm.quit);
}

#[test]
fn pop_on_a_single_scene_quits() {
    let mut sm = SceneManager::new();
    let top = sm.scenes.pop().unwrap();
    let t = Transition { transition_type: TransitionType::Pop, scene: None };
    sm.apply_transition(top, Some(t));
    assert_eq!(sm.scenes.len(), 0);
    assert!(sm.quit);
}

#[test]
fn pop_with_scenes_below_resumes_them() {
    let mut sm = SceneManager::new();
    sm.scenes.push(Scene::Pause(PauseScene::new()));
    let top = sm.scenes.pop().unwrap();
    let t = Transition { transition_type: TransitionType::Pop, scene: None };
    sm.apply_transition(top, Some(t));
    assert_eq!(sm.scenes.len(), 1);
    assert!(matches!(sm.scenes[0], Scene::Intro(_)));
    assert!(!sm.quit);
}

#[test]
fn pause_resumes_on_start_button() {
    let mut pause = PauseScene::new();
    pause.gamepad_button_down_event(Button::West);
    assert!(!pause.resume);
    pause.gamepad_button_down_event(Button::Start);
    assert!(pause.resume);
    let t = pause.get_transition().unwrap();
    assert_eq!(t.transition_type, TransitionType::Pop);
    assert!(t.scene.is_none());
}

#[test]
fn game_pause_pushes_a_pause_scene() {
    let mut game = GameScene::new();
    game.key_down_event(KeyCode::Space);
    assert!(game.pause);
    let t = game.get_transition().unwrap();
    assert_eq!(t.transition_type, TransitionType::Push);
    assert!(matches!(t.scene, Some(Scene::Pause(_))));
    // The pause request was consumed.
    assert!(!game.pause);
    assert!(game.get_transition().is_none());
}

#[test]
fn key_events_drive_the_input_state() {
    let mut game = GameScene::new();
    assert_eq!(game.input, InputState::default());
    game.key_down_event(KeyCode::Left);
    game.key_down_event(KeyCode::Z);
    assert!(game.input.left);
    assert!(game.input.rotate_left);
    assert!(game.input.moved());
    assert!(game.input.acted());
    game.key_up_event(KeyCode::Left);
    game.key_up_event(KeyCode::Z);
    assert_eq!(game.input, InputState::default());
}

#[test]
fn axis_events_map_signs_to_directions() {
    let mut game = GameScene::new();
    game.gamepad_axis_event(Axis::DPadX, -1);
    assert!(game.input.left && !game.input.right);
    game.gamepad_axis_event(Axis::DPadX, 1);
    assert!(game.input.right);
    game.gamepad_axis_event(Axis::DPadX, 0);
    assert!(!game.input.left && !game.input.right);
    game.gamepad_axis_event(Axis::DPadY, 1);
    assert!(game.input.up);
    game.gamepad_axis_event(Axis::DPadY, 0);
    assert!(!game.input.up && !game.input.down);
}

#[test]
fn blocked_top_rows_push_game_over() {
    let mut sm = SceneManager::new();
    sm.key_down_event(KeyCode::Other);
    sm.update(1);
    if let Some(Scene::Game(game)) = sm.scenes.last_mut() {
        let b = Block {
            piece_type: PieceType::OShape,
            pos: Position::from_grid_position(GridPosition::new(0, 0)),
        };
        game.grid.set_cell(0, 0, Some(b));
    } else {
        panic!("expected the game on top");
    }
    sm.update(1);
    // The game stays underneath the game-over overlay.
    assert_eq!(sm.scenes.len(), 2);
    assert!(matches!(sm.scenes[0], Scene::Game(_)));
    assert!(matches!(sm.scenes[1], Scene::GameOver(_)));
}

#[test]
fn escape_quits_from_the_game() {
    let mut sm = SceneManager::new();
    sm.key_down_event(KeyCode::Other);
    sm.update(1);
    assert!(matches!(sm.scenes[0], Scene::Game(_)));
    sm.key_down_event(KeyCode::Escape);
    assert!(sm.quit);
}

#[test]
fn pause_resume_pops_via_update() {
    let mut sm = SceneManager::new();
    sm.key_down_event(KeyCode::Other);
    sm.update(1);
    sm.gamepad_button_down_event(Button::Start);
    sm.update(1);
    assert_eq!(sm.scenes.len(), 2);
    assert!(matches!(sm.scenes[0], Scene::Game(_)));
    assert!(matches!(sm.scenes[1], Scene::Pause(_)));
    sm.gamepad_button_down_event(Button::Start);
    sm.update(1);
    // The pause popped; the suspended game below resumed with its state.
    assert_eq!(sm.scenes.len(), 1);
    assert!(matches!(sm.scenes[0], Scene::Game(_)));
    assert!(!sm.quit);
}

#[test]
fn game_over_restart_resets_via_update() {
    let mut sm = SceneManager::new();
    sm.gamepad_button_down_event(Button::South);
    sm.update(1);
    if let Some(Scene::Game(game)) = sm.scenes.last_mut() {
        game.score = 777;
        let b = Block {
            piece_type: PieceType::IShape,
            pos: Position::from_grid_position(GridPosition::new(5, 0)),
        };
        game.grid.set_cell(0, 5, Some(b));
    } else {
        panic!("expected the game on top");
    }
    sm.update(1);
    assert_eq!(sm.scenes.len(), 2);
    assert!(matches!(sm.scenes[1], Scene::GameOver(_)));
    sm.gamepad_button_down_event(Button::South);
    sm.update(1);
    // Reset: the whole stack was cleared before the fresh game was pushed.
    assert_eq!(sm.scenes.len(), 1);
    match &sm.scenes[0] {
        Scene::Game(g) => {
            assert_eq!(g.score, 0);
            assert!(g.falling.is_none());
        }
        _ => panic!("expected a fresh game"),
    }
    assert!(!sm.quit);
}
