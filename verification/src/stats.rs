//! Per-player statistics: win/loss counters and win streaks, maintained
//! authoritatively on the coordinator and mirrored locally from game
//! completion notifications.

use vstd::prelude::*;
use crate::chain::ChainId;

verus! {

/// Statistics of one player, keyed by its node identity.
#[derive(Clone, Copy, Debug)]
pub struct PlayerStats {
    pub chain_id: ChainId,
    pub games_played: u64,
    pub games_won: u64,
    pub games_lost: u64,
    pub current_streak: u64,
    pub best_streak: u64,
    pub last_game_timestamp: u64,
}

impl PlayerStats {
    /// Every game is a win or a loss, the running streak counts recent
    /// consecutive wins, and the best streak is the largest streak seen.
    pub open spec fn wf(self) -> bool {
        &&& self.games_played == self.games_won + self.games_lost
        &&& self.current_streak <= self.games_won
        &&& self.current_streak <= self.best_streak
        &&& self.best_streak <= self.games_won
    }

    /// The stats after one more game: played goes up by one, the won or
    /// lost counter with it; a win lengthens the streak (raising the best
    /// streak when passed), a loss resets the streak to zero.
    pub open spec fn spec_add_game(self, won: bool, timestamp: u64) -> PlayerStats {
        if won {
            PlayerStats {
                games_played: (self.games_played + 1) as u64,
                games_won: (self.games_won + 1) as u64,
                current_streak: (self.current_streak + 1) as u64,
                best_streak: if self.current_streak + 1 > self.best_streak {
                    (self.current_streak + 1) as u64
                } else {
                    self.best_streak
                },
                last_game_timestamp: timestamp,
                ..self
            }
        } else {
            PlayerStats {
                games_played: (self.games_played + 1) as u64,
                games_lost: (self.games_lost + 1) as u64,
                current_streak: 0,
                last_game_timestamp: timestamp,
                ..self
            }
        }
    }

    /// Fresh stats for an identity that has completed no game yet.
    pub fn new(chain_id: ChainId) -> (r: PlayerStats)
        ensures
            r.chain_id == chain_id,
            r.games_played == 0 && r.games_won == 0 && r.games_lost == 0,
            r.current_streak == 0 && r.best_streak == 0,
            r.last_game_timestamp == 0,
            r.wf(),
    {
        PlayerStats {
            chain_id,
            games_played: 0,
            games_won: 0,
            games_lost: 0,
            current_streak: 0,
            best_streak: 0,
            last_game_timestamp: 0,
        }
    }

    /// Record one completed game.
    pub fn add_game(&mut self, won: bool, timestamp: u64)
        requires
            old(self).wf(),
            old(self).games_played < u64::MAX,
        ensures
            *final(self) == old(self).spec_add_game(won, timestamp),
            final(self).wf(),
    {
        self.games_played = self.games_played + 1;
        self.last_game_timestamp = timestamp;

        if won {
            self.games_won = self.games_won + 1;
            self.current_streak = self.current_streak + 1;
            if self.current_streak > self.best_streak {
                self.best_streak = self.current_streak;
            }
        } else {
            self.games_lost = self.games_lost + 1;
            self.current_streak = 0;
        }
    }

    /// A coarse skill label derived from the win counter alone.
    pub fn estimated_rank(&self) -> (r: &'static str)
        ensures
            self.games_won >= 100 ==> r@ == "Master"@,
            50 <= self.games_won < 100 ==> r@ == "Expert"@,
            20 <= self.games_won < 50 ==> r@ == "Advanced"@,
            5 <= self.games_won < 20 ==> r@ == "Intermediate"@,
            self.games_won < 5 ==> r@ == "Beginner"@,
    {
        if self.games_won >= 100 {
            "Master"
        } else if self.games_won >= 50 {
            "Expert"
        } else if self.games_won >= 20 {
            "Advanced"
        } else if self.games_won >= 5 {
            "Intermediate"
        } else {
            "Beginner"
        }
    }
}

} // verus!
