use stack_game::stats::GameStats;

#[test]
fn new_stats_are_zero() {
    let stats = GameStats::new();
    assert_eq!(stats.high_score, 0);
    assert_eq!(stats.games_played, 0);
}

#[test]
fn load_takes_the_stored_record() {
    let stored = GameStats { high_score: 12, games_played: 40 };
    assert_eq!(GameStats::load(Some(stored)), stored);
}

#[test]
fn load_keeps_a_negative_stored_score() {
    let stored = GameStats { high_score: -3, games_played: -1 };
    assert_eq!(GameStats::load(Some(stored)), stored);
}

#[test]
fn load_without_a_record_starts_from_zero() {
    assert_eq!(GameStats::load(None), GameStats { high_score: 0, games_played: 0 });
}

#[test]
fn a_started_game_is_counted_once() {
    let mut stats = GameStats { high_score: 7, games_played: 3 };
    stats.record_game_started();
    assert_eq!(stats, GameStats { high_score: 7, games_played: 4 });
}

#[test]
fn a_level_above_the_high_score_replaces_it() {
    let mut stats = GameStats { high_score: 7, games_played: 3 };
    assert!(stats.record_game_over(8));
    assert_eq!(stats, GameStats { high_score: 8, games_played: 3 });
}

#[test]
fn a_level_equal_to_the_high_score_changes_nothing() {
    let mut stats = GameStats { high_score: 7, games_played: 3 };
    assert!(!stats.record_game_over(7));
    assert_eq!(stats, GameStats { high_score: 7, games_played: 3 });
}

#[test]
fn a_level_below_the_high_score_changes_nothing() {
    let mut stats = GameStats { high_score: 7, games_played: 3 };
    assert!(!stats.record_game_over(0));
    assert_eq!(stats, GameStats { high_score: 7, games_played: 3 });
}

#[test]
fn level_zero_beats_a_negative_high_score() {
    let mut stats = GameStats { high_score: -1, games_played: 0 };
    assert!(stats.record_game_over(0));
    assert_eq!(stats.high_score, 0);
}
