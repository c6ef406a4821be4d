//! The room state machine: joining, per-round choice submission, and
//! round resolution of one two-player match (first side to three round
//! wins takes the game).

use vstd::prelude::*;
use crate::chain::ChainId;
use crate::choice::Choice;
use crate::choice::RoundResult;

verus! {

/// One resolved round, as appended to a room's history.
#[derive(Clone, Copy, Debug)]
pub struct RoundHistory {
    pub round_number: u64,
    pub player1_choice: Choice,
    pub player2_choice: Choice,
    pub result: RoundResult,
    pub winner: Option<ChainId>,
}

/// Running tally of one room's game.
#[derive(Clone, Copy, Debug)]
pub struct GameResult {
    pub player1_wins: u8,
    pub player2_wins: u8,
    pub draws: u64,
    pub winner: Option<ChainId>,
    pub is_finished: bool,
}

impl GameResult {
    /// The tally never counts past the winning third round win, the game
    /// is finished exactly when one side holds three round wins, and a
    /// winner is recorded only then.
    pub open spec fn wf(self) -> bool {
        &&& self.player1_wins <= 3
        &&& self.player2_wins <= 3
        &&& !(self.player1_wins == 3 && self.player2_wins == 3)
        &&& (self.is_finished <==> self.player1_wins == 3 || self.player2_wins == 3)
        &&& (!self.is_finished ==> self.winner is None)
    }
}

/// One two-player match instance.  The authoritative copy lives only on
/// the coordinator; participants see value copies carried by messages.
#[derive(Clone, Debug)]
pub struct GameRoom {
    pub room_id: String,
    pub player1: Option<ChainId>,
    pub player2: Option<ChainId>,
    pub player1_name: Option<String>,
    pub player2_name: Option<String>,
    pub player1_choice: Option<Choice>,
    pub player2_choice: Option<Choice>,
    pub game_result: GameResult,
    pub created_at: u64,
    pub round_number: u64,
    pub private: bool,
    pub round_history: Vec<RoundHistory>,
}

impl GameRoom {
    /// Whether `chain_id` occupies one of the room's two slots.
    pub open spec fn occupies(self, chain_id: ChainId) -> bool {
        self.player1 == Some(chain_id) || self.player2 == Some(chain_id)
    }

    pub open spec fn spec_is_full(self) -> bool {
        self.player1 is Some && self.player2 is Some
    }

    /// A node may join while the game is unfinished and a slot it does
    /// not already hold is open.
    pub open spec fn spec_can_join(self, chain_id: ChainId) -> bool {
        &&& !self.game_result.is_finished
        &&& (self.player1 is None || (self.player2 is None && self.player1 != Some(chain_id)))
    }

    /// Which slot (1 or 2) `chain_id` occupies, if any.
    pub open spec fn spec_player_number(self, chain_id: ChainId) -> Option<u8> {
        if self.player1 == Some(chain_id) {
            Some(1u8)
        } else if self.player2 == Some(chain_id) {
            Some(2u8)
        } else {
            None
        }
    }

    pub open spec fn spec_both_chose(self) -> bool {
        self.player1_choice is Some && self.player2_choice is Some
    }

    /// Room well-formedness: slots fill in order and hold distinct
    /// identities, a pending choice belongs to an occupied slot, a
    /// finished game has no pending choices, its tally is well formed,
    /// and the recorded winner owns the winning counter.
    pub open spec fn wf(self) -> bool {
        &&& self.game_result.wf()
        &&& self.round_number >= 1
        &&& (self.player2 is Some ==> self.player1 is Some)
        &&& (self.player1 is Some && self.player2 is Some ==> self.player1 != self.player2)
        &&& (self.player1_choice is Some ==> self.player1 is Some)
        &&& (self.player2_choice is Some ==> self.player2 is Some)
        &&& (self.game_result.is_finished ==> self.player1_choice is None && self.player2_choice is None)
        &&& (self.game_result.player1_wins == 3 ==> self.game_result.winner == self.player1 && self.player1 is Some)
        &&& (self.game_result.player2_wins == 3 ==> self.game_result.winner == self.player2 && self.player2 is Some)
    }

    /// The outcome of resolving the pending round (meaningful only when
    /// both choices are set).
    pub open spec fn spec_round_result(self) -> RoundResult {
        self.player1_choice->0.spec_compare(self.player2_choice->0)
    }

    /// Who wins the pending round: player 1 on Win, player 2 on Lose,
    /// nobody on Draw.
    pub open spec fn spec_round_winner(self) -> Option<ChainId> {
        match self.spec_round_result() {
            RoundResult::Win => self.player1,
            RoundResult::Lose => self.player2,
            RoundResult::Draw => None,
        }
    }

    /// The history entry that resolving the pending round appends.
    pub open spec fn spec_round_entry(self) -> RoundHistory {
        RoundHistory {
            round_number: self.round_number,
            player1_choice: self.player1_choice->0,
            player2_choice: self.player2_choice->0,
            result: self.spec_round_result(),
            winner: self.spec_round_winner(),
        }
    }

    /// A room as `create` makes it: both slots empty, no pending choice,
    /// a zeroed tally, round 1, an empty history, and the given key,
    /// creation time and visibility.
    pub open spec fn is_fresh(self, room_id: Seq<char>, timestamp: u64, private: bool) -> bool {
        &&& self.room_id@ == room_id
        &&& self.player1 is None && self.player2 is None
        &&& self.player1_name is None && self.player2_name is None
        &&& self.player1_choice is None && self.player2_choice is None
        &&& self.game_result.player1_wins == 0 && self.game_result.player2_wins == 0
        &&& self.game_result.draws == 0
        &&& self.game_result.winner is None && !self.game_result.is_finished
        &&& self.created_at == timestamp
        &&& self.round_number == 1
        &&& self.private == private
        &&& self.round_history@ == Seq::<RoundHistory>::empty()
    }

    /// The room after `chain_id`'s pending choice is recorded: the choice
    /// lands in the slot the identity occupies (meaningful only when it
    /// occupies one).
    pub open spec fn spec_with_choice(self, chain_id: ChainId, choice: Choice) -> GameRoom {
        if self.player1 == Some(chain_id) {
            GameRoom { player1_choice: Some(choice), ..self }
        } else {
            GameRoom { player2_choice: Some(choice), ..self }
        }
    }

    /// The room after `chain_id` joins: the first open slot is filled,
    /// and the slot's display name is set when one was provided
    /// (meaningful only when the room can be joined).
    pub open spec fn spec_joined(self, chain_id: ChainId, player_name: Option<String>) -> GameRoom {
        if self.player1 is None {
            GameRoom {
                player1: Some(chain_id),
                player1_name: if player_name is Some {
                    player_name
                } else {
                    self.player1_name
                },
                ..self
            }
        } else {
            GameRoom {
                player2: Some(chain_id),
                player2_name: if player_name is Some {
                    player_name
                } else {
                    self.player2_name
                },
                ..self
            }
        }
    }

    /// How a room with both choices pending relates to itself one
    /// resolved round later: the history entry for the pre-resolution
    /// round number is appended, exactly one tally counter goes up, the
    /// game finishes exactly when a counter reaches three (and then
    /// records the owning player as winner), both pending choices are
    /// cleared, and the round number advances only while the game is
    /// unfinished.  Everything else stands still.
    pub open spec fn resolves_to(self, s: GameRoom) -> bool {
        let o = self;
        let res = o.spec_round_result();
        &&& s.round_history@ == o.round_history@.push(o.spec_round_entry())
        &&& (res == RoundResult::Win ==> s.game_result.player1_wins == o.game_result.player1_wins + 1
                && s.game_result.player2_wins == o.game_result.player2_wins
                && s.game_result.draws == o.game_result.draws)
        &&& (res == RoundResult::Lose ==> s.game_result.player2_wins == o.game_result.player2_wins + 1
                && s.game_result.player1_wins == o.game_result.player1_wins
                && s.game_result.draws == o.game_result.draws)
        &&& (res == RoundResult::Draw ==> s.game_result.draws == o.game_result.draws + 1
                && s.game_result.player1_wins == o.game_result.player1_wins
                && s.game_result.player2_wins == o.game_result.player2_wins)
        &&& s.game_result.player1_wins + s.game_result.player2_wins + s.game_result.draws
                == o.game_result.player1_wins + o.game_result.player2_wins + o.game_result.draws + 1
        &&& (s.game_result.is_finished <==> s.game_result.player1_wins == 3 || s.game_result.player2_wins == 3)
        &&& (s.game_result.player1_wins == 3 ==> s.game_result.winner == o.player1)
        &&& (s.game_result.player2_wins == 3 ==> s.game_result.winner == o.player2)
        &&& (!s.game_result.is_finished ==> s.game_result.winner == o.game_result.winner)
        &&& s.player1_choice is None && s.player2_choice is None
        &&& (!s.game_result.is_finished ==> s.round_number == o.round_number + 1)
        &&& (s.game_result.is_finished ==> s.round_number == o.round_number)
        &&& s.room_id == o.room_id
        &&& s.player1 == o.player1 && s.player2 == o.player2
        &&& s.player1_name == o.player1_name && s.player2_name == o.player2_name
        &&& s.created_at == o.created_at && s.private == o.private
    }

    /// A fresh room: both slots empty, round 1, empty history.
    pub fn new(room_id: String, timestamp: u64, private: bool) -> (r: GameRoom)
        ensures
            r.room_id == room_id,
            r.is_fresh(room_id@, timestamp, private),
            r.wf(),
    {
        GameRoom {
            room_id,
            player1: None,
            player2: None,
            player1_name: None,
            player2_name: None,
            player1_choice: None,
            player2_choice: None,
            game_result: GameResult {
                player1_wins: 0,
                player2_wins: 0,
                draws: 0,
                winner: None,
                is_finished: false,
            },
            created_at: timestamp,
            round_number: 1,
            private,
            round_history: Vec::new(),
        }
    }

    pub fn is_full(&self) -> (r: bool)
        ensures
            r == self.spec_is_full(),
    {
        self.player1.is_some() && self.player2.is_some()
    }

    pub fn can_join(&self, chain_id: ChainId) -> (r: bool)
        ensures
            r == self.spec_can_join(chain_id),
    {
        let slot1_free_for_id = match self.player1 {
            Some(_) => false,
            None => true,
        };
        let slot2_free_for_id = match (self.player2, self.player1) {
            (None, Some(p1)) => p1 != chain_id,
            (None, None) => true,
            _ => false,
        };
        !self.game_result.is_finished && (slot1_free_for_id || slot2_free_for_id)
    }

    /// Fill the first open slot with `chain_id`.  Fails, leaving the room
    /// unchanged, when the room is full or finished or the identity
    /// already holds a slot.
    pub fn add_player(&mut self, chain_id: ChainId) -> (r: bool)
        requires
            old(self).wf(),
        ensures
            r == old(self).spec_can_join(chain_id),
            !r ==> *final(self) == *old(self),
            r ==> *final(self) == (old(self).spec_joined(chain_id, None)),
            final(self).wf(),
    {
        if !self.can_join(chain_id) {
            return false;
        }
        if self.player1.is_none() {
            self.player1 = Some(chain_id);
        } else {
            self.player2 = Some(chain_id);
        }
        true
    }

    pub fn get_player_number(&self, chain_id: ChainId) -> (r: Option<u8>)
        ensures
            r == self.spec_player_number(chain_id),
    {
        let in_slot1 = match self.player1 {
            Some(p1) => p1 == chain_id,
            None => false,
        };
        let in_slot2 = match self.player2 {
            Some(p2) => p2 == chain_id,
            None => false,
        };
        if in_slot1 {
            Some(1)
        } else if in_slot2 {
            Some(2)
        } else {
            None
        }
    }

    pub fn both_players_chose(&self) -> (r: bool)
        ensures
            r == self.spec_both_chose(),
    {
        self.player1_choice.is_some() && self.player2_choice.is_some()
    }

    /// Record `chain_id`'s pending choice for the current round.  Fails,
    /// leaving the room unchanged, when the identity holds no slot or the
    /// game is already finished; a finished room therefore never accepts
    /// another choice.
    pub fn set_choice(&mut self, chain_id: ChainId, choice: Choice) -> (r: bool)
        requires
            old(self).wf(),
        ensures
            r == (!old(self).game_result.is_finished && old(self).occupies(chain_id)),
            !r ==> *final(self) == *old(self),
            r ==> *final(self) == (old(self).spec_with_choice(chain_id, choice)),
            final(self).wf(),
    {
        if self.game_result.is_finished {
            return false;
        }
        match self.get_player_number(chain_id) {
            Some(1) => {
                self.player1_choice = Some(choice);
                true
            }
            Some(2) => {
                self.player2_choice = Some(choice);
                true
            }
            Some(_) => false,
            None => false,
        }
    }

    /// Resolve the pending round once both choices are set: append the
    /// history entry for the pre-resolution round number, bump exactly
    /// one tally counter, finish the game when a counter reaches three
    /// (recording the winner), clear both pending choices, and advance
    /// the round number only while the game is unfinished.  Returns the
    /// round outcome and the round winner, or None (leaving the room
    /// unchanged) when a choice is still missing.
    pub fn calculate_round_result(&mut self) -> (r: Option<(RoundResult, Option<ChainId>)>)
        requires
            old(self).wf(),
            old(self).round_number < u64::MAX,
            old(self).game_result.draws < u64::MAX,
        ensures
            final(self).wf(),
            !old(self).spec_both_chose() ==> r is None && *final(self) == *old(self),
            old(self).spec_both_chose() ==> {
                &&& r == Some((old(self).spec_round_result(), old(self).spec_round_winner()))
                &&& old(self).resolves_to(*final(self))
            },
    {
        let (choice1, choice2) = match (self.player1_choice, self.player2_choice) {
            (Some(c1), Some(c2)) => (c1, c2),
            _ => {
                return None;
            }
        };
        let result = choice1.compare(&choice2);

        let winner = match result {
            RoundResult::Win => self.player1,
            RoundResult::Lose => self.player2,
            RoundResult::Draw => None,
        };

        // Record the round against its pre-resolution number, before the
        // choices are cleared.
        self.round_history.push(RoundHistory {
            round_number: self.round_number,
            player1_choice: choice1,
            player2_choice: choice2,
            result,
            winner,
        });

        match result {
            RoundResult::Win => {
                self.game_result.player1_wins = self.game_result.player1_wins + 1;
                if self.game_result.player1_wins >= 3 {
                    self.game_result.winner = self.player1;
                    self.game_result.is_finished = true;
                }
            }
            RoundResult::Lose => {
                self.game_result.player2_wins = self.game_result.player2_wins + 1;
                if self.game_result.player2_wins >= 3 {
                    self.game_result.winner = self.player2;
                    self.game_result.is_finished = true;
                }
            }
            RoundResult::Draw => {
                self.game_result.draws = self.game_result.draws + 1;
            }
        }

        self.player1_choice = None;
        self.player2_choice = None;

        if !self.game_result.is_finished {
            self.round_number = self.round_number + 1;
        }

        Some((result, winner))
    }
}

/// In a well-formed room a finished game has exactly one winning side:
/// one counter stands at three, and the recorded winner is the player
/// owning it.  A finished room also accepts no further choice: both
/// pending choices are clear and stay so.
pub proof fn lemma_finished_game_winner(room: GameRoom)
    requires
        room.wf(),
        room.game_result.is_finished,
    ensures
        room.game_result.player1_wins == 3 <==> room.game_result.player2_wins != 3,
        room.game_result.player1_wins == 3 ==> room.game_result.winner == room.player1,
        room.game_result.player2_wins == 3 ==> room.game_result.winner == room.player2,
        room.game_result.winner is Some,
        room.player1_choice is None && room.player2_choice is None,
{
}

/// Joining a room whose two slots are already filled, or joining with an
/// identity that already occupies a slot, can never succeed.
pub proof fn lemma_join_full_or_member_fails(room: GameRoom, chain_id: ChainId)
    requires
        room.wf(),
        room.spec_is_full() || room.occupies(chain_id),
    ensures
        !room.spec_can_join(chain_id),
{
}

} // verus!
