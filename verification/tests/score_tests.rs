use retris::score::ScoreManager;

#[test]
fn fresh_session_starts_clean() {
    let s = ScoreManager::new();
    assert_eq!(s.score(), 0);
    assert_eq!(s.level(), 0);
    assert_eq!(s.lines_cleared(), 0);
    assert_eq!(s.multiplier(), 1);
    assert_eq!(s.combo_count(), 0);
    assert_eq!(s.high_score(), 0);
    assert!(!s.high_score_needs_sync());
}

#[test]
fn first_single_clear_awards_base_points() {
    // fresh session, single-row clear at level 0: 137 × 1 × 1 × 1 × 1
    let mut s = ScoreManager::new();
    let points = s.on_rows_cleared(1);
    assert_eq!(points, 137);
    assert_eq!(s.score(), 137);
    assert_eq!(s.multiplier(), 1);
    assert_eq!(s.combo_count(), 1);
    assert_eq!(s.lines_cleared(), 1);
    assert_eq!(s.level(), 0);
}

#[test]
fn compounded_tetris_combo() {
    // level 0: a tetris, then a second tetris with no miss between
    let mut s = ScoreManager::new();
    let first = s.on_rows_cleared(4);
    // 137 × 15 × 1 × 1 × 1
    assert_eq!(first, 2055);
    assert_eq!(s.multiplier(), 15);
    assert_eq!(s.combo_count(), 1);
    let second = s.on_rows_cleared(4);
    // 137 × 15 × 15 × 2 × 1
    assert_eq!(second, 61650);
    assert_eq!(s.combo_count(), 2);
    assert_eq!(s.score(), 2055 + 61650);
}

#[test]
fn rows_bonus_table() {
    for (rows, bonus) in [(1u32, 1u64), (2, 3), (3, 7), (4, 15), (5, 31), (10, 1023)] {
        let mut s = ScoreManager::new();
        assert_eq!(s.on_rows_cleared(rows), 137 * bonus);
    }
}

#[test]
fn clearing_nothing_changes_nothing() {
    let mut s = ScoreManager::new();
    s.on_rows_cleared(2);
    let points = s.on_rows_cleared(0);
    assert_eq!(points, 0);
    assert_eq!(s.score(), 137 * 3);
    assert_eq!(s.combo_count(), 1);
    assert_eq!(s.multiplier(), 3);
}

#[test]
fn combo_reset_after_no_clear_lock() {
    let mut s = ScoreManager::new();
    s.on_rows_cleared(4);
    assert!(s.multiplier() > 1);
    s.on_piece_landed_no_clear();
    assert_eq!(s.multiplier(), 1);
    assert_eq!(s.combo_count(), 0);
    // the next clear's previous multiplier is therefore 1
    let points = s.on_rows_cleared(1);
    assert_eq!(points, 137);
}

#[test]
fn combo_multiplier_doubles_per_consecutive_clear() {
    let mut s = ScoreManager::new();
    // single clears: bonus 1 keeps the carried multiplier at 1, so points
    // show the pure combo factor: 137 × 2^(combo-1) at level 0
    assert_eq!(s.on_rows_cleared(1), 137);
    assert_eq!(s.on_rows_cleared(1), 274);
    assert_eq!(s.on_rows_cleared(1), 548);
    assert_eq!(s.on_rows_cleared(1), 1096);
    assert_eq!(s.combo_count(), 4);
}

#[test]
fn level_multiplier_buckets() {
    // reach each bucket by clearing single rows, then break the combo and
    // clear one more: points are then 137 × levelMultiplier
    let cases = [(0u32, 1u64), (5, 2), (10, 3), (15, 5), (20, 8)];
    for (level, mult) in cases {
        let mut s = ScoreManager::new();
        for _ in 0..(level * 10) {
            s.on_rows_cleared(1);
            s.on_piece_landed_no_clear();
        }
        assert_eq!(s.level(), level);
        let points = s.on_rows_cleared(1);
        assert_eq!(points, 137 * mult);
    }
}

#[test]
fn level_rises_every_ten_lines() {
    let mut s = ScoreManager::new();
    for _ in 0..2 {
        s.on_rows_cleared(4);
        s.on_piece_landed_no_clear();
    }
    assert_eq!(s.lines_cleared(), 8);
    assert_eq!(s.level(), 0);
    s.on_rows_cleared(4);
    assert_eq!(s.lines_cleared(), 12);
    assert_eq!(s.level(), 1);
}

#[test]
fn level_at_clear_time_is_used_for_the_crossing_clear() {
    // 8 lines in, the clear that crosses into level 1 still scores with
    // the level it was made at (level 0)
    let mut s = ScoreManager::new();
    s.on_rows_cleared(4);
    s.on_piece_landed_no_clear();
    s.on_rows_cleared(4);
    s.on_piece_landed_no_clear();
    let points = s.on_rows_cleared(4);
    // 137 × 15 × 1 × 1 × levelMultiplier(0)
    assert_eq!(points, 2055);
}

#[test]
fn high_score_follows_score_and_wants_sync() {
    let mut s = ScoreManager::new();
    assert!(!s.high_score_needs_sync());
    s.on_rows_cleared(1);
    assert_eq!(s.high_score(), 137);
    assert!(s.high_score_needs_sync());
    s.set_high_score(1_000_000);
    assert_eq!(s.high_score(), 1_000_000);
    assert!(!s.high_score_needs_sync());
    // a clear below the loaded high score does not touch it
    s.on_piece_landed_no_clear();
    s.on_rows_cleared(1);
    assert_eq!(s.high_score(), 1_000_000);
    assert!(!s.high_score_needs_sync());
}
