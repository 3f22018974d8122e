// The engine under a deterministic randomness source: every draw handed to
// it is zero, so the user always opens and the opponent always answers by
// removing a single pebble.

use pebbles_game::{DifficultyLevel, GameAction, GameEngine, GameState, Player};

#[test]
fn test_init() {
    let mut engine = GameEngine::new();
    let res = engine.initialize(DifficultyLevel::Easy, 15, 2, 0, 0);
    assert!(res.is_ok());
}

#[test]
fn test_failed_1() {
    // max_move > pile_size
    let mut engine = GameEngine::new();
    let res = engine.initialize(DifficultyLevel::Easy, 15, 17, 0, 0);
    assert!(res.is_err());
}

#[test]
fn test_failed_2() {
    // max_move == pile_size == 0
    let mut engine = GameEngine::new();
    let res = engine.initialize(DifficultyLevel::Easy, 0, 0, 0, 0);
    assert!(res.is_err());
}

#[test]
fn test_user_easy_win() {
    let mut engine = GameEngine::new();
    let res = engine.initialize(DifficultyLevel::Easy, 15, 7, 0, 0);
    assert!(res.is_ok());

    // user turn 7
    engine.apply_action(GameAction::Turn(7), 0, 0).expect("error");

    // user turn 7
    engine.apply_action(GameAction::Turn(7), 0, 0).expect("error");

    let state = engine.read_state();
    assert_eq!(state.winner, Some(Player::User));
}

#[test]
fn test_program_hard_win() {
    let mut engine = GameEngine::new();
    let res = engine.initialize(DifficultyLevel::Hard, 15, 14, 0, 0);
    assert!(res.is_ok());

    // user turn 14
    engine.apply_action(GameAction::Turn(14), 0, 0).expect("error");

    let state = engine.read_state();
    assert_eq!(state.winner, Some(Player::Opponent));
}

#[test]
fn test_giveup() {
    let mut engine = GameEngine::new();
    let res = engine.initialize(DifficultyLevel::Easy, 15, 7, 0, 0);
    assert!(res.is_ok());

    // user turn 7
    engine.apply_action(GameAction::Turn(7), 0, 0).expect("error");

    // user gives up
    engine.apply_action(GameAction::GiveUp, 0, 0).expect("error");

    // user turn 5
    engine.apply_action(GameAction::Turn(5), 0, 0).expect("error");

    let state = engine.read_state();
    assert_eq!(state.winner, Some(Player::Opponent));
}

#[test]
fn test_restart() {
    let mut engine = GameEngine::new();
    let res = engine.initialize(DifficultyLevel::Easy, 15, 7, 0, 0);
    assert!(res.is_ok());

    // user turn 7
    engine.apply_action(GameAction::Turn(7), 0, 0).expect("error");

    let restart = GameAction::Restart {
        difficulty: DifficultyLevel::Easy,
        pile_size: 15,
        max_move: 7,
    };
    engine.apply_action(restart, 0, 0).expect("error");

    // user turn 7
    engine.apply_action(GameAction::Turn(7), 0, 0).expect("error");

    let state = engine.read_state();
    assert_eq!(state.remaining, 7);
}

#[test]
fn test_get_state() {
    let mut engine = GameEngine::new();
    let res = engine.initialize(DifficultyLevel::Easy, 15, 7, 0, 0);
    assert!(res.is_ok());

    let expected = GameState {
        pile_size: 15,
        max_move: 7,
        remaining: 15,
        difficulty: DifficultyLevel::Easy,
        first_player: Player::User,
        winner: None,
    };
    let state = engine.read_state();
    assert_eq!(state.pile_size, expected.pile_size);
    assert_eq!(state.max_move, expected.max_move);
    assert_eq!(state.remaining, expected.remaining);
    assert_eq!(state.difficulty, expected.difficulty);
    assert_eq!(state.first_player, expected.first_player);
    assert_eq!(state.winner, expected.winner);
}
