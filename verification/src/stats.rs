//! The record of best score and games played that outlives a session.

use vstd::prelude::*;

verus! {

/// What is kept between runs of the game.
#[derive(Clone, Copy, PartialEq, Eq, Structural, Debug)]
pub struct GameStats {
    /// The highest level at which a game has ended so far.
    pub high_score: i32,
    /// How many games were started.
    pub games_played: i32,
}

impl GameStats {
    /// The record of a player who has never played.
    pub fn new() -> (stats: GameStats)
        ensures
            stats.high_score == 0,
            stats.games_played == 0,
    {
        GameStats { high_score: 0, games_played: 0 }
    }

    /// The record to start with, given what was found in storage: the stored
    /// record where one could be read, a fresh one otherwise.
    pub fn load(stored: Option<GameStats>) -> (stats: GameStats)
        ensures
            stats == match stored {
                Some(record) => record,
                None => (GameStats { high_score: 0, games_played: 0 }),
            },
    {
        match stored {
            Some(record) => record,
            None => GameStats::new(),
        }
    }

    /// The record after one more game has been started.
    pub open spec fn started(self) -> GameStats {
        GameStats { games_played: (self.games_played + 1) as i32, ..self }
    }

    /// The record after a game has ended at `level`: the high score is raised
    /// to `level` if `level` is above it, and stays otherwise.
    pub open spec fn finished(self, level: i32) -> GameStats {
        if level > self.high_score {
            GameStats { high_score: level, ..self }
        } else {
            self
        }
    }

    /// Counts a game that is being started.
    pub fn record_game_started(&mut self)
        requires
            old(self).games_played < i32::MAX,
        ensures
            *final(self) == old(self).started(),
            final(self).games_played == old(self).games_played + 1,
            final(self).high_score == old(self).high_score,
    {
        self.games_played = self.games_played + 1;
    }

    /// Takes note of a game that ended at `level`. Returns whether this gave
    /// a new high score.
    pub fn record_game_over(&mut self, level: i32) -> (improved: bool)
        ensures
            improved == (level > old(self).high_score),
            *final(self) == old(self).finished(level),
            final(self).games_played == old(self).games_played,
    {
        if level > self.high_score {
            self.high_score = level;
            true
        } else {
            false
        }
    }
}

} // verus!
