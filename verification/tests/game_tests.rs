use retris::game::{Game, GameState};
use retris::piece::PieceInput;

fn idle() -> PieceInput {
    PieceInput { left: false, right: false, soft_drop: false, rotate: false }
}

fn soft_drop() -> PieceInput {
    PieceInput { left: false, right: true, soft_drop: true, rotate: false }
}

#[test]
fn new_game_is_empty_and_playing() {
    let game = Game::new();
    assert!(game.active_piece().is_none());
    assert_eq!(game.grid().occupied_cell_list(), vec![]);
    assert_eq!(game.score_manager().score(), 0);
    assert!(!game.grid().cascading());
}

#[test]
fn first_frame_spawns_a_piece() {
    let mut game = Game::new();
    let ev = game.update(idle(), 16);
    assert!(!ev.locked);
    assert_eq!(ev.lines_cleared, 0);
    let piece = game.active_piece().as_ref().expect("a piece should be falling");
    assert_eq!(piece.cell_y, 0);
    assert!(!piece.stopped);
}

#[test]
fn a_piece_falls_locks_and_breaks_the_combo() {
    let mut game = Game::new();
    // soft drop at spawn velocity 2×5: one cell per 100 ms, so one maximal
    // frame drops the piece all the way to the floor and locks it
    let ev = game.update(PieceInput { left: false, right: false, soft_drop: true, rotate: false },
        10000);
    assert!(ev.locked);
    assert_eq!(ev.lines_cleared, 0);
    assert_eq!(ev.points_awarded, 0);
    assert!(!ev.leveled_up);
    assert!(game.active_piece().is_none());
    // the four cells of the piece are now locked in the grid
    assert_eq!(game.grid().occupied_cell_list().len(), 4);
    // a lock without a clear resets the combo state
    assert_eq!(game.score_manager().multiplier(), 1);
    assert_eq!(game.score_manager().combo_count(), 0);
}

#[test]
fn pieces_stack_up_over_frames() {
    let mut game = Game::new();
    for _ in 0..3 {
        let ev = game.update(soft_drop(), 10000);
        assert!(ev.locked);
    }
    assert_eq!(game.grid().occupied_cell_list().len(), 12);
    assert_eq!(game.score_manager().score(), 0);
}

#[test]
fn high_score_can_be_loaded_at_session_start() {
    let mut game = Game::new();
    game.set_high_score(4242);
    assert_eq!(game.score_manager().high_score(), 4242);
    assert!(!game.score_manager().high_score_needs_sync());
}

#[test]
fn update_reports_successful_rotation() {
    let mut game = Game::new();
    game.update(idle(), 16);
    // drop the piece into open field first, so every rotation fits
    for _ in 0..6 {
        game.update(idle(), 500);
    }
    let ev = game.update(PieceInput { left: false, right: false, soft_drop: false, rotate: true },
        16);
    assert!(ev.rotated);
}

#[test]
fn states_compare_by_value() {
    assert_eq!(GameState::Playing, GameState::Playing);
    assert_ne!(GameState::Playing, GameState::LevelTransition { timer_ms: 0 });
    assert_eq!(GameState::LevelTransition { timer_ms: 5 }, GameState::LevelTransition {
        timer_ms: 5,
    });
}
