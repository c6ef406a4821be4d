//! A node's application state, and the handlers that drive it: local
//! commands and inbound cross-node messages.  Handlers mutate the state
//! and return the messages to send; the surrounding program performs the
//! sends and feeds inbound messages (with their bounce flag) back in.

use vstd::prelude::*;
use crate::chain::ChainId;
use crate::leaderboard::LeaderboardEntry;
use crate::leaderboard::spec_rank_entries;
use crate::leaderboard::rank_entries;
use crate::messages::ApplicationParameters;
use crate::messages::GameError;
use crate::messages::GameMessage;
use crate::messages::Operation;
use crate::messages::OutboundMessage;
use crate::room::GameRoom;
use crate::stats::PlayerStats;

verus! {

/// One directory entry: a node identity and its display name.
#[derive(Clone, Debug)]
pub struct PlayerNameEntry {
    pub chain_id: ChainId,
    pub name: String,
}

/// No two rooms share a room id.
pub open spec fn rooms_unique(rooms: Seq<GameRoom>) -> bool {
    forall|i: int, j: int|
        0 <= i < j < rooms.len() ==> (#[trigger] rooms[i]).room_id@ != (#[trigger] rooms[j]).room_id@
}

pub open spec fn has_room(rooms: Seq<GameRoom>, room_id: Seq<char>) -> bool {
    exists|i: int| 0 <= i < rooms.len() && (#[trigger] rooms[i]).room_id@ == room_id
}

/// The index of the room keyed `room_id` (meaningful under
/// `rooms_unique` when `has_room` holds).
pub open spec fn room_index(rooms: Seq<GameRoom>, room_id: Seq<char>) -> int {
    choose|i: int| 0 <= i < rooms.len() && (#[trigger] rooms[i]).room_id@ == room_id
}

/// No two directory entries share an identity.
pub open spec fn names_unique(names: Seq<PlayerNameEntry>) -> bool {
    forall|i: int, j: int|
        0 <= i < j < names.len() ==> (#[trigger] names[i]).chain_id != (#[trigger] names[j]).chain_id
}

pub open spec fn has_name(names: Seq<PlayerNameEntry>, chain_id: ChainId) -> bool {
    exists|i: int| 0 <= i < names.len() && (#[trigger] names[i]).chain_id == chain_id
}

pub open spec fn name_index(names: Seq<PlayerNameEntry>, chain_id: ChainId) -> int {
    choose|i: int| 0 <= i < names.len() && (#[trigger] names[i]).chain_id == chain_id
}

/// The display name the directory holds for an identity, if any.
pub open spec fn spec_name_of(names: Seq<PlayerNameEntry>, chain_id: ChainId) -> Option<String> {
    if has_name(names, chain_id) {
        Some(names[name_index(names, chain_id)].name)
    } else {
        None
    }
}

/// The directory after a last-writer-wins update of one identity's name.
pub open spec fn spec_set_name(
    names: Seq<PlayerNameEntry>,
    chain_id: ChainId,
    name: String,
) -> Seq<PlayerNameEntry> {
    if has_name(names, chain_id) {
        names.update(name_index(names, chain_id), PlayerNameEntry { chain_id, name })
    } else {
        names.push(PlayerNameEntry { chain_id, name })
    }
}

/// No two stats entries belong to one identity.
pub open spec fn stats_unique(stats: Seq<PlayerStats>) -> bool {
    forall|i: int, j: int|
        0 <= i < j < stats.len() ==> (#[trigger] stats[i]).chain_id != (#[trigger] stats[j]).chain_id
}

pub open spec fn has_stats(stats: Seq<PlayerStats>, chain_id: ChainId) -> bool {
    exists|i: int| 0 <= i < stats.len() && (#[trigger] stats[i]).chain_id == chain_id
}

pub open spec fn stats_index(stats: Seq<PlayerStats>, chain_id: ChainId) -> int {
    choose|i: int| 0 <= i < stats.len() && (#[trigger] stats[i]).chain_id == chain_id
}

/// Fresh statistics for an identity with no completed game.
pub open spec fn spec_fresh_stats(chain_id: ChainId) -> PlayerStats {
    PlayerStats {
        chain_id,
        games_played: 0,
        games_won: 0,
        games_lost: 0,
        current_streak: 0,
        best_streak: 0,
        last_game_timestamp: 0,
    }
}

/// The stats table after one game result is recorded for an identity:
/// its entry (created lazily on the first game) counts one more game.
/// An entry whose game counter stands at the machine maximum is left as
/// it is, so that recording never overflows.
pub open spec fn spec_record_result(
    stats: Seq<PlayerStats>,
    chain_id: ChainId,
    won: bool,
    timestamp: u64,
) -> Seq<PlayerStats> {
    if has_stats(stats, chain_id) {
        let i = stats_index(stats, chain_id);
        if stats[i].games_played == u64::MAX {
            stats
        } else {
            stats.update(i, stats[i].spec_add_game(won, timestamp))
        }
    } else {
        stats.push(spec_fresh_stats(chain_id).spec_add_game(won, timestamp))
    }
}

/// A list of room ids with every occurrence of `room_id` dropped,
/// keeping the order of the rest.
pub open spec fn spec_remove_id(list: Seq<String>, room_id: Seq<char>) -> Seq<String>
    decreases list.len(),
{
    if list.len() == 0 {
        Seq::empty()
    } else if list.last()@ == room_id {
        spec_remove_id(list.drop_last(), room_id)
    } else {
        spec_remove_id(list.drop_last(), room_id).push(list.last())
    }
}

pub open spec fn contains_id(list: Seq<String>, room_id: Seq<char>) -> bool {
    exists|i: int| 0 <= i < list.len() && (#[trigger] list[i])@ == room_id
}

/// Drop every entry equal to `room_id` from a list of room ids, keeping
/// the order of the rest.
pub fn remove_id(list: &mut Vec<String>, room_id: &String)
    ensures
        final(list)@ == spec_remove_id(old(list)@, room_id@),
{
    let mut out: Vec<String> = Vec::new();
    let mut i: usize = 0;
    while i < list.len()
        invariant
            list@ == old(list)@,
            i <= list@.len(),
            out@ == spec_remove_id(list@.take(i as int), room_id@),
        decreases list@.len() - i,
    {
        proof {
            assert(list@.take(i + 1).drop_last() =~= list@.take(i as int));
            assert(list@.take(i + 1).last() == list@[i as int]);
        }
        if !(list[i] == *room_id) {
            out.push(list[i].clone());
        }
        i = i + 1;
    }
    proof {
        assert(list@.take(list@.len() as int) =~= list@);
    }
    *list = out;
}

/// Whether a list of room ids holds `room_id`.
pub fn contains_room_id(list: &Vec<String>, room_id: &String) -> (r: bool)
    ensures
        r == contains_id(list@, room_id@),
{
    let mut i: usize = 0;
    while i < list.len()
        invariant
            i <= list@.len(),
            forall|k: int| 0 <= k < i ==> (#[trigger] list@[k])@ != room_id@,
        decreases list@.len() - i,
    {
        if list[i] == *room_id {
            return true;
        }
        i = i + 1;
    }
    false
}

/// The leaderboard row that one player's statistics project to, with the
/// directory's display name attached when present.
pub open spec fn spec_entry_of(st: PlayerStats, names: Seq<PlayerNameEntry>) -> LeaderboardEntry {
    LeaderboardEntry {
        chain_id: st.chain_id,
        player_name: spec_name_of(names, st.chain_id),
        wins: st.games_won,
        losses: st.games_lost,
        total_games: st.games_played,
    }
}

/// Every stats entry projected to a leaderboard row, in table order.
pub open spec fn spec_entries_of(
    stats: Seq<PlayerStats>,
    names: Seq<PlayerNameEntry>,
) -> Seq<LeaderboardEntry> {
    stats.map_values(|st: PlayerStats| spec_entry_of(st, names))
}

/// The application state of one node.  Rooms, player stats, the
/// directory and the global leaderboard are authoritative only on the
/// coordinator; the `my_*` fields are this node's local mirror.
#[derive(Debug)]
pub struct RockPaperScissorsState {
    pub rooms: Vec<GameRoom>,
    pub room_counter: u64,
    pub available_rooms: Vec<String>,
    pub player_names: Vec<PlayerNameEntry>,
    pub my_player_name: Option<String>,
    pub global_leaderboard: Vec<LeaderboardEntry>,
    pub player_stats: Vec<PlayerStats>,
    pub is_leaderboard_chain: bool,
    pub leaderboard_chain_id: Option<ChainId>,
    pub my_rooms: Vec<String>,
    pub my_stats: Option<PlayerStats>,
    pub my_current_room: Option<String>,
}

impl RockPaperScissorsState {
    /// State well-formedness: rooms, stats and directory entries are
    /// keyed uniquely, and every room and stats record is well formed.
    pub open spec fn wf(self) -> bool {
        &&& rooms_unique(self.rooms@)
        &&& (forall|i: int| 0 <= i < self.rooms@.len() ==> (#[trigger] self.rooms@[i]).wf())
        &&& names_unique(self.player_names@)
        &&& stats_unique(self.player_stats@)
        &&& (forall|i: int|
            0 <= i < self.player_stats@.len() ==> (#[trigger] self.player_stats@[i]).wf())
        &&& (self.my_stats is Some ==> self.my_stats->0.wf())
    }

    /// A node's state right after instantiation: everything empty, the
    /// coordinator taken from the parameters, and the coordinator flag
    /// set exactly when this node is the configured coordinator.
    pub fn instantiate(parameters: &ApplicationParameters, current_chain: ChainId) -> (r:
        RockPaperScissorsState)
        ensures
            r.rooms@ == Seq::<GameRoom>::empty(),
            r.room_counter == 0,
            r.available_rooms@ == Seq::<String>::empty(),
            r.player_names@ == Seq::<PlayerNameEntry>::empty(),
            r.my_player_name is None,
            r.global_leaderboard@ == Seq::<LeaderboardEntry>::empty(),
            r.player_stats@ == Seq::<PlayerStats>::empty(),
            r.leaderboard_chain_id == parameters.leaderboard_chain_id,
            r.is_leaderboard_chain == (parameters.leaderboard_chain_id == Some(current_chain)),
            r.my_rooms@ == Seq::<String>::empty(),
            r.my_stats is None,
            r.my_current_room is None,
            r.wf(),
    {
        let is_leaderboard = match parameters.leaderboard_chain_id {
            Some(chain_id) => chain_id == current_chain,
            None => false,
        };
        RockPaperScissorsState {
            rooms: Vec::new(),
            room_counter: 0,
            available_rooms: Vec::new(),
            player_names: Vec::new(),
            my_player_name: None,
            global_leaderboard: Vec::new(),
            player_stats: Vec::new(),
            is_leaderboard_chain: is_leaderboard,
            leaderboard_chain_id: parameters.leaderboard_chain_id,
            my_rooms: Vec::new(),
            my_stats: None,
            my_current_room: None,
        }
    }

    /// Index of the room keyed `room_id`, if one exists.
    pub fn find_room_index(&self, room_id: &String) -> (r: Option<usize>)
        requires
            rooms_unique(self.rooms@),
        ensures
            r is Some <==> has_room(self.rooms@, room_id@),
            r is Some ==> r->0 < self.rooms@.len() && r->0 as int == room_index(
                self.rooms@,
                room_id@,
            ),
    {
        let mut i: usize = 0;
        while i < self.rooms.len()
            invariant
                i <= self.rooms@.len(),
                rooms_unique(self.rooms@),
                forall|k: int| 0 <= k < i ==> (#[trigger] self.rooms@[k]).room_id@ != room_id@,
            decreases self.rooms@.len() - i,
        {
            if self.rooms[i].room_id == *room_id {
                proof {
                    assert(has_room(self.rooms@, room_id@));
                    let j = room_index(self.rooms@, room_id@);
                    if j != i {
                        assert(self.rooms@[j].room_id@ == self.rooms@[i as int].room_id@);
                        assert(false);
                    }
                }
                return Some(i);
            }
            i = i + 1;
        }
        None
    }

    /// The display name the coordinator's directory holds for an
    /// identity, if any.
    pub fn lookup_player_name(&self, chain_id: ChainId) -> (r: Option<String>)
        requires
            names_unique(self.player_names@),
        ensures
            r == spec_name_of(self.player_names@, chain_id),
    {
        let mut i: usize = 0;
        while i < self.player_names.len()
            invariant
                i <= self.player_names@.len(),
                names_unique(self.player_names@),
                forall|k: int| 0 <= k < i ==> (#[trigger] self.player_names@[k]).chain_id != chain_id,
            decreases self.player_names@.len() - i,
        {
            if self.player_names[i].chain_id == chain_id {
                proof {
                    assert(has_name(self.player_names@, chain_id));
                    let j = name_index(self.player_names@, chain_id);
                    if j != i {
                        assert(self.player_names@[j].chain_id == self.player_names@[i as int].chain_id);
                        assert(false);
                    }
                }
                return Some(self.player_names[i].name.clone());
            }
            i = i + 1;
        }
        None
    }

    /// Index of an identity's stats entry, if one exists.
    fn find_stats_index(&self, chain_id: ChainId) -> (r: Option<usize>)
        requires
            stats_unique(self.player_stats@),
        ensures
            r is Some <==> has_stats(self.player_stats@, chain_id),
            r is Some ==> r->0 < self.player_stats@.len() && r->0 as int == stats_index(
                self.player_stats@,
                chain_id,
            ),
    {
        let mut i: usize = 0;
        while i < self.player_stats.len()
            invariant
                i <= self.player_stats@.len(),
                stats_unique(self.player_stats@),
                forall|k: int| 0 <= k < i ==> (#[trigger] self.player_stats@[k]).chain_id != chain_id,
            decreases self.player_stats@.len() - i,
        {
            if self.player_stats[i].chain_id == chain_id {
                proof {
                    assert(has_stats(self.player_stats@, chain_id));
                    let j = stats_index(self.player_stats@, chain_id);
                    if j != i {
                        assert(self.player_stats@[j].chain_id == self.player_stats@[i as int].chain_id);
                        assert(false);
                    }
                }
                return Some(i);
            }
            i = i + 1;
        }
        None
    }

    /// Rebuild the global leaderboard from scratch: project every stats
    /// entry to a row, rank the rows, keep the top of the ranking.
    /// Nothing else changes, so rebuilding again gives the same board.
    pub fn rebuild_global_leaderboard(&mut self)
        requires
            old(self).wf(),
        ensures
            final(self).wf(),
            final(self).global_leaderboard@ == spec_rank_entries(
                spec_entries_of(old(self).player_stats@, old(self).player_names@),
            ),
            *final(self) == (RockPaperScissorsState {
                global_leaderboard: final(self).global_leaderboard,
                ..*old(self)
            }),
    {
        let mut entries: Vec<LeaderboardEntry> = Vec::new();
        let mut i: usize = 0;
        while i < self.player_stats.len()
            invariant
                self == old(self),
                old(self).wf(),
                i <= self.player_stats@.len(),
                entries@ == spec_entries_of(
                    self.player_stats@.take(i as int),
                    self.player_names@,
                ),
            decreases self.player_stats@.len() - i,
        {
            let st = self.player_stats[i];
            let player_name = self.lookup_player_name(st.chain_id);
            entries.push(
                LeaderboardEntry {
                    chain_id: st.chain_id,
                    player_name,
                    wins: st.games_won,
                    losses: st.games_lost,
                    total_games: st.games_played,
                },
            );
            proof {
                assert(entries@ =~= spec_entries_of(
                    self.player_stats@.take(i + 1),
                    self.player_names@,
                ));
            }
            i = i + 1;
        }
        proof {
            assert(self.player_stats@.take(self.player_stats@.len() as int) =~= self.player_stats@);
        }
        self.global_leaderboard = rank_entries(entries);
    }

    /// Record one game result into an identity's statistics (creating
    /// the entry on its first game) and rebuild the global leaderboard
    /// from the updated table.
    pub fn update_leaderboard_stats(&mut self, player_chain: ChainId, timestamp: u64, won: bool)
        requires
            old(self).wf(),
        ensures
            final(self).wf(),
            final(self).player_stats@ == spec_record_result(
                old(self).player_stats@,
                player_chain,
                won,
                timestamp,
            ),
            final(self).global_leaderboard@ == spec_rank_entries(
                spec_entries_of(final(self).player_stats@, old(self).player_names@),
            ),
            *final(self) == (RockPaperScissorsState {
                player_stats: final(self).player_stats,
                global_leaderboard: final(self).global_leaderboard,
                ..*old(self)
            }),
    {
        match self.find_stats_index(player_chain) {
            Some(i) => {
                let mut st = self.player_stats[i];
                if st.games_played < u64::MAX {
                    st.add_game(won, timestamp);
                    self.player_stats.remove(i);
                    self.player_stats.insert(i, st);
                    proof {
                        assert(self.player_stats@ =~= old(self).player_stats@.update(
                            i as int,
                            st,
                        ));
                    }
                } else {
                    proof {
                        assert(self.player_stats@ =~= old(self).player_stats@);
                    }
                }
            }
            None => {
                let mut st = PlayerStats::new(player_chain);
                st.add_game(won, timestamp);
                self.player_stats.push(st);
            }
        }
        proof {
            assert forall|i: int, j: int| 0 <= i < j < self.player_stats@.len() implies (
            #[trigger] self.player_stats@[i]).chain_id != (#[trigger] self.player_stats@[j]).chain_id by {
                if j < old(self).player_stats@.len() {
                    assert(old(self).player_stats@[i].chain_id != old(self).player_stats@[j].chain_id);
                } else {
                    assert(!has_stats(old(self).player_stats@, player_chain));
                    assert(old(self).player_stats@[i].chain_id != player_chain);
                }
            }
        }
        self.rebuild_global_leaderboard();
    }

    /// Write an identity's display name into the coordinator's
    /// directory, last writer wins.
    fn set_player_name_entry(&mut self, chain_id: ChainId, name: String)
        requires
            names_unique(old(self).player_names@),
        ensures
            final(self).player_names@ == spec_set_name(old(self).player_names@, chain_id, name),
            names_unique(final(self).player_names@),
            *final(self) == (RockPaperScissorsState {
                player_names: final(self).player_names,
                ..*old(self)
            }),
    {
        let mut i: usize = 0;
        while i < self.player_names.len()
            invariant
                *self == *old(self),
                self.player_names@ == old(self).player_names@,
                names_unique(self.player_names@),
                i <= self.player_names@.len(),
                forall|k: int| 0 <= k < i ==> (#[trigger] self.player_names@[k]).chain_id != chain_id,
            decreases self.player_names@.len() - i,
        {
            if self.player_names[i].chain_id == chain_id {
                proof {
                    assert(has_name(self.player_names@, chain_id));
                    let j = name_index(self.player_names@, chain_id);
                    if j != i {
                        assert(self.player_names@[j].chain_id == self.player_names@[i as int].chain_id);
                        assert(false);
                    }
                }
                self.player_names.remove(i);
                self.player_names.insert(i, PlayerNameEntry { chain_id, name });
                proof {
                    assert(self.player_names@ =~= spec_set_name(
                        old(self).player_names@,
                        chain_id,
                        name,
                    ));
                    assert forall|a: int, b: int|
                        0 <= a < b < self.player_names@.len() implies (
                    #[trigger] self.player_names@[a]).chain_id != (
                    #[trigger] self.player_names@[b]).chain_id by {
                        assert(old(self).player_names@[a].chain_id != old(self).player_names@[b].chain_id);
                    }
                }
                return;
            }
            i = i + 1;
        }
        proof {
            assert(!has_name(self.player_names@, chain_id));
        }
        self.player_names.push(PlayerNameEntry { chain_id, name });
        proof {
            assert forall|a: int, b: int|
                0 <= a < b < self.player_names@.len() implies (
            #[trigger] self.player_names@[a]).chain_id != (
            #[trigger] self.player_names@[b]).chain_id by {
                if b < old(self).player_names@.len() {
                    assert(old(self).player_names@[a].chain_id != old(self).player_names@[b].chain_id);
                } else {
                    assert(old(self).player_names@[a].chain_id != chain_id);
                }
            }
        }
    }

    /// Execute one local command: role-restricted commands mutate this
    /// node's state directly, player commands are translated into a
    /// message to the coordinator, pure reads do nothing.  A rejected
    /// command changes nothing and sends nothing.
    pub fn execute_operation(
        &mut self,
        current_chain: ChainId,
        timestamp: u64,
        operation: Operation,
    ) -> (r: Result<Vec<OutboundMessage>, GameError>)
        requires
            old(self).wf(),
        ensures
            final(self).wf(),
            match operation {
                Operation::SetupLeaderboard { leaderboard_chain_id } => {
                    if old(self).leaderboard_chain_id is Some {
                        &&& r is Err && r->Err_0 == GameError::LeaderboardAlreadyConfigured
                        &&& *final(self) == *old(self)
                    } else {
                        &&& r is Ok && r->Ok_0@ == Seq::<OutboundMessage>::empty()
                        &&& *final(self) == (RockPaperScissorsState {
                            leaderboard_chain_id: Some(leaderboard_chain_id),
                            is_leaderboard_chain: current_chain == leaderboard_chain_id,
                            ..*old(self)
                        })
                    }
                },
                Operation::SetPlayerName { name } => {
                    &&& r is Ok
                    &&& final(self).my_player_name == Some(name)
                    &&& match old(self).leaderboard_chain_id {
                        Some(lid) => {
                            if current_chain != lid {
                                &&& *final(self) == (RockPaperScissorsState {
                                    my_player_name: Some(name),
                                    ..*old(self)
                                })
                                &&& r->Ok_0@ == seq![
                                    (OutboundMessage {
                                        destination: lid,
                                        message: GameMessage::UpdatePlayerName {
                                            player_chain: current_chain,
                                            player_name: name,
                                        },
                                    }),
                                ]
                            } else {
                                &&& *final(self) == (RockPaperScissorsState {
                                    my_player_name: Some(name),
                                    player_names: final(self).player_names,
                                    ..*old(self)
                                })
                                &&& final(self).player_names@ == spec_set_name(
                                    old(self).player_names@,
                                    current_chain,
                                    name,
                                )
                                &&& r->Ok_0@ == Seq::<OutboundMessage>::empty()
                            }
                        },
                        None => {
                            &&& *final(self) == (RockPaperScissorsState {
                                my_player_name: Some(name),
                                ..*old(self)
                            })
                            &&& r->Ok_0@ == Seq::<OutboundMessage>::empty()
                        },
                    }
                },
                Operation::CreateRoom { room_id, private } => {
                    if !old(self).is_leaderboard_chain {
                        &&& r is Err && r->Err_0 == GameError::NotLeaderboardChain
                        &&& *final(self) == *old(self)
                    } else if has_room(old(self).rooms@, room_id@) {
                        &&& r is Err && r->Err_0 == GameError::RoomAlreadyExists
                        &&& *final(self) == *old(self)
                    } else {
                        &&& r is Ok && r->Ok_0@ == Seq::<OutboundMessage>::empty()
                        &&& final(self).rooms@.len() == old(self).rooms@.len() + 1
                        &&& final(self).rooms@ == old(self).rooms@.push(final(self).rooms@.last())
                        &&& final(self).rooms@.last().is_fresh(room_id@, timestamp, private)
                        &&& final(self).available_rooms@ == if private {
                            old(self).available_rooms@
                        } else {
                            old(self).available_rooms@.push(room_id)
                        }
                        &&& *final(self) == (RockPaperScissorsState {
                            rooms: final(self).rooms,
                            available_rooms: final(self).available_rooms,
                            ..*old(self)
                        })
                    }
                },
                Operation::JoinRoom { room_id } => {
                    match old(self).leaderboard_chain_id {
                        Some(lid) => {
                            &&& r is Ok
                            &&& *final(self) == *old(self)
                            &&& r->Ok_0@ == seq![
                                (OutboundMessage {
                                    destination: lid,
                                    message: GameMessage::JoinRoom {
                                        room_id: room_id,
                                        player_chain: current_chain,
                                        player_name: old(self).my_player_name,
                                    },
                                }),
                            ]
                        },
                        None => {
                            &&& r is Err && r->Err_0 == GameError::LeaderboardNotConfigured
                            &&& *final(self) == *old(self)
                        },
                    }
                },
                Operation::SubmitChoice { room_id, choice } => {
                    match old(self).leaderboard_chain_id {
                        Some(lid) => {
                            &&& r is Ok
                            &&& *final(self) == *old(self)
                            &&& r->Ok_0@ == seq![
                                (OutboundMessage {
                                    destination: lid,
                                    message: GameMessage::SubmitChoice {
                                        room_id: room_id,
                                        player_chain: current_chain,
                                        choice: choice,
                                    },
                                }),
                            ]
                        },
                        None => {
                            &&& r is Err && r->Err_0 == GameError::LeaderboardNotConfigured
                            &&& *final(self) == *old(self)
                        },
                    }
                },
                Operation::GetAvailableRooms
                | Operation::GetRoom { .. }
                | Operation::GetLeaderboard
                | Operation::GetMyStats => {
                    &&& r is Ok && r->Ok_0@ == Seq::<OutboundMessage>::empty()
                    &&& *final(self) == *old(self)
                },
                Operation::ResetLeaderboard => {
                    if !old(self).is_leaderboard_chain {
                        &&& r is Err && r->Err_0 == GameError::NotLeaderboardChain
                        &&& *final(self) == *old(self)
                    } else {
                        &&& r is Ok && r->Ok_0@ == Seq::<OutboundMessage>::empty()
                        &&& final(self).rooms@ == Seq::<GameRoom>::empty()
                        &&& final(self).available_rooms@ == Seq::<String>::empty()
                        &&& final(self).global_leaderboard@ == Seq::<LeaderboardEntry>::empty()
                        &&& final(self).player_stats@ == Seq::<PlayerStats>::empty()
                        &&& final(self).room_counter == 0
                        &&& *final(self) == (RockPaperScissorsState {
                            rooms: final(self).rooms,
                            available_rooms: final(self).available_rooms,
                            global_leaderboard: final(self).global_leaderboard,
                            player_stats: final(self).player_stats,
                            room_counter: 0,
                            ..*old(self)
                        })
                    }
                },
            },
    {
        match operation {
            Operation::SetupLeaderboard { leaderboard_chain_id } => {
                if self.leaderboard_chain_id.is_some() {
                    return Err(GameError::LeaderboardAlreadyConfigured);
                }
                self.leaderboard_chain_id = Some(leaderboard_chain_id);
                self.is_leaderboard_chain = current_chain == leaderboard_chain_id;
                Ok(Vec::new())
            }
            Operation::SetPlayerName { name } => {
                self.my_player_name = Some(name.clone());
                match self.leaderboard_chain_id {
                    Some(lid) => {
                        if current_chain != lid {
                            let mut out: Vec<OutboundMessage> = Vec::new();
                            out.push(
                                OutboundMessage {
                                    destination: lid,
                                    message: GameMessage::UpdatePlayerName {
                                        player_chain: current_chain,
                                        player_name: name,
                                    },
                                },
                            );
                            Ok(out)
                        } else {
                            self.set_player_name_entry(current_chain, name);
                            Ok(Vec::new())
                        }
                    }
                    None => Ok(Vec::new()),
                }
            }
            Operation::CreateRoom { room_id, private } => {
                if !self.is_leaderboard_chain {
                    return Err(GameError::NotLeaderboardChain);
                }
                if self.find_room_index(&room_id).is_some() {
                    return Err(GameError::RoomAlreadyExists);
                }
                let room = GameRoom::new(room_id.clone(), timestamp, private);
                self.rooms.push(room);
                if !private {
                    self.available_rooms.push(room_id);
                }
                proof {
                    assert forall|a: int, b: int| 0 <= a < b < self.rooms@.len() implies (
                    #[trigger] self.rooms@[a]).room_id@ != (#[trigger] self.rooms@[b]).room_id@ by {
                        if b < old(self).rooms@.len() {
                            assert(old(self).rooms@[a].room_id@ != old(self).rooms@[b].room_id@);
                        } else {
                            assert(!has_room(old(self).rooms@, self.rooms@[b].room_id@));
                        }
                    }
                }
                Ok(Vec::new())
            }
            Operation::JoinRoom { room_id } => {
                match self.leaderboard_chain_id {
                    Some(lid) => {
                        let mut out: Vec<OutboundMessage> = Vec::new();
                        out.push(
                            OutboundMessage {
                                destination: lid,
                                message: GameMessage::JoinRoom {
                                    room_id,
                                    player_chain: current_chain,
                                    player_name: self.my_player_name.clone(),
                                },
                            },
                        );
                        Ok(out)
                    }
                    None => Err(GameError::LeaderboardNotConfigured),
                }
            }
            Operation::SubmitChoice { room_id, choice } => {
                match self.leaderboard_chain_id {
                    Some(lid) => {
                        let mut out: Vec<OutboundMessage> = Vec::new();
                        out.push(
                            OutboundMessage {
                                destination: lid,
                                message: GameMessage::SubmitChoice {
                                    room_id,
                                    player_chain: current_chain,
                                    choice,
                                },
                            },
                        );
                        Ok(out)
                    }
                    None => Err(GameError::LeaderboardNotConfigured),
                }
            }
            Operation::GetAvailableRooms => Ok(Vec::new()),
            Operation::GetRoom { .. } => Ok(Vec::new()),
            Operation::GetLeaderboard => Ok(Vec::new()),
            Operation::GetMyStats => Ok(Vec::new()),
            Operation::ResetLeaderboard => {
                if !self.is_leaderboard_chain {
                    return Err(GameError::NotLeaderboardChain);
                }
                self.rooms.clear();
                self.available_rooms.clear();
                self.global_leaderboard.clear();
                self.player_stats.clear();
                self.room_counter = 0;
                Ok(Vec::new())
            }
        }
    }

    /// Route one inbound message.  A bounced message returns at once,
    /// mutating nothing and sending nothing; a coordinator-only message
    /// arriving on another node is silently ignored.  Otherwise the
    /// message's effect is applied and the resulting notifications are
    /// returned for sending.
    #[verifier::rlimit(60)]
    pub fn execute_message(
        &mut self,
        current_chain: ChainId,
        timestamp: u64,
        message: GameMessage,
        is_bouncing: bool,
    ) -> (out: Vec<OutboundMessage>)
        requires
            old(self).wf(),
        ensures
            final(self).wf(),
            is_bouncing ==> *final(self) == *old(self) && out@ == Seq::<OutboundMessage>::empty(),
            !is_bouncing ==> match message {
                GameMessage::JoinRoom { room_id, player_chain, player_name } => {
                    if !old(self).is_leaderboard_chain {
                        &&& *final(self) == *old(self)
                        &&& out@ == Seq::<OutboundMessage>::empty()
                    } else {
                        &&& final(self).player_names@ == (match player_name {
                            Some(name) => spec_set_name(old(self).player_names@, player_chain, name),
                            None => old(self).player_names@,
                        })
                        &&& {
                            let joinable = has_room(old(self).rooms@, room_id@)
                                && old(self).rooms@[room_index(old(self).rooms@, room_id@)].spec_can_join(player_chain);
                            if joinable {
                                let i = room_index(old(self).rooms@, room_id@);
                                let joined = old(self).rooms@[i].spec_joined(player_chain, player_name);
                                &&& final(self).rooms@ == old(self).rooms@.update(i, joined)
                                &&& final(self).available_rooms@ == (if joined.spec_is_full() {
                                    spec_remove_id(old(self).available_rooms@, room_id@)
                                } else {
                                    old(self).available_rooms@
                                })
                                &&& out@ == seq![
                                    (OutboundMessage {
                                        destination: player_chain,
                                        message: GameMessage::PlayerJoined {
                                            room_id,
                                            player_chain,
                                            success: true,
                                        },
                                    }),
                                ]
                            } else {
                                &&& final(self).rooms@ == old(self).rooms@
                                &&& final(self).available_rooms@ == old(self).available_rooms@
                                &&& out@ == seq![
                                    (OutboundMessage {
                                        destination: player_chain,
                                        message: GameMessage::PlayerJoined {
                                            room_id,
                                            player_chain,
                                            success: false,
                                        },
                                    }),
                                ]
                            }
                        }
                        &&& *final(self) == (RockPaperScissorsState {
                            rooms: final(self).rooms,
                            available_rooms: final(self).available_rooms,
                            player_names: final(self).player_names,
                            ..*old(self)
                        })
                    }
                },
                GameMessage::PlayerJoined { room_id, player_chain, success } => {
                    &&& out@ == Seq::<OutboundMessage>::empty()
                    &&& if current_chain == player_chain && success {
                        &&& final(self).my_rooms@ == (if contains_id(old(self).my_rooms@, room_id@) {
                            old(self).my_rooms@
                        } else {
                            old(self).my_rooms@.push(room_id)
                        })
                        &&& final(self).my_current_room == Some(room_id)
                        &&& *final(self) == (RockPaperScissorsState {
                            my_rooms: final(self).my_rooms,
                            my_current_room: final(self).my_current_room,
                            ..*old(self)
                        })
                    } else {
                        *final(self) == *old(self)
                    }
                },
                GameMessage::SubmitChoice { room_id, player_chain, choice } => {
                    if !old(self).is_leaderboard_chain || !has_room(old(self).rooms@, room_id@) {
                        &&& *final(self) == *old(self)
                        &&& out@ == Seq::<OutboundMessage>::empty()
                    } else {
                        let i = room_index(old(self).rooms@, room_id@);
                        let room = old(self).rooms@[i];
                        if room.game_result.is_finished || !room.occupies(player_chain) {
                            &&& *final(self) == *old(self)
                            &&& out@ == Seq::<OutboundMessage>::empty()
                        } else {
                            let room1 = room.spec_with_choice(player_chain, choice);
                            if !room1.spec_both_chose() || room1.round_number == u64::MAX
                                || room1.game_result.draws == u64::MAX {
                                &&& final(self).rooms@ == old(self).rooms@.update(i, room1)
                                &&& *final(self) == (RockPaperScissorsState {
                                    rooms: final(self).rooms,
                                    ..*old(self)
                                })
                                &&& out@ == Seq::<OutboundMessage>::empty()
                            } else {
                                let room2 = final(self).rooms@[i];
                                let p1 = room.player1->0;
                                let p2 = room.player2->0;
                                let round_msg = GameMessage::RoundCompleted {
                                    room_id,
                                    player1_choice: room1.player1_choice->0,
                                    player2_choice: room1.player2_choice->0,
                                    round_winner: room1.spec_round_winner(),
                                    round_result: room1.spec_round_result(),
                                    game_result: room2.game_result,
                                };
                                &&& room1.resolves_to(room2)
                                &&& final(self).rooms@ == old(self).rooms@.update(i, room2)
                                &&& if room2.game_result.is_finished {
                                    let fin_msg = GameMessage::GameFinished {
                                        room_id,
                                        winner: room2.game_result.winner->0,
                                        final_result: room2.game_result,
                                    };
                                    let stats1 = spec_record_result(
                                        old(self).player_stats@,
                                        p1,
                                        room2.game_result.winner == Some(p1),
                                        timestamp,
                                    );
                                    let stats2 = spec_record_result(
                                        stats1,
                                        p2,
                                        room2.game_result.winner == Some(p2),
                                        timestamp,
                                    );
                                    &&& out@ == seq![
                                        (OutboundMessage { destination: p1, message: round_msg }),
                                        (OutboundMessage { destination: p2, message: round_msg }),
                                        (OutboundMessage { destination: p1, message: fin_msg }),
                                        (OutboundMessage { destination: p2, message: fin_msg }),
                                    ]
                                    &&& final(self).available_rooms@ == spec_remove_id(
                                        old(self).available_rooms@,
                                        room_id@,
                                    )
                                    &&& (!room.private ==> {
                                        &&& final(self).player_stats@ == stats2
                                        &&& final(self).global_leaderboard@ == spec_rank_entries(
                                            spec_entries_of(stats2, old(self).player_names@),
                                        )
                                    })
                                    &&& (room.private ==> final(self).player_stats@ == old(self).player_stats@
                                        && final(self).global_leaderboard@ == old(self).global_leaderboard@)
                                    &&& *final(self) == (RockPaperScissorsState {
                                        rooms: final(self).rooms,
                                        available_rooms: final(self).available_rooms,
                                        player_stats: final(self).player_stats,
                                        global_leaderboard: final(self).global_leaderboard,
                                        ..*old(self)
                                    })
                                } else {
                                    &&& out@ == seq![
                                        (OutboundMessage { destination: p1, message: round_msg }),
                                        (OutboundMessage { destination: p2, message: round_msg }),
                                    ]
                                    &&& *final(self) == (RockPaperScissorsState {
                                        rooms: final(self).rooms,
                                        ..*old(self)
                                    })
                                }
                            }
                        }
                    }
                },
                GameMessage::RoundCompleted { .. } => {
                    &&& *final(self) == *old(self)
                    &&& out@ == Seq::<OutboundMessage>::empty()
                },
                GameMessage::GameFinished { room_id, winner, .. } => {
                    let base = if old(self).my_stats is Some {
                        old(self).my_stats->0
                    } else {
                        spec_fresh_stats(current_chain)
                    };
                    let cleared = old(self).my_current_room is Some
                        && old(self).my_current_room->0@ == room_id@;
                    &&& out@ == Seq::<OutboundMessage>::empty()
                    &&& final(self).my_stats == Some(
                        if base.games_played == u64::MAX {
                            base
                        } else {
                            base.spec_add_game(winner == current_chain, timestamp)
                        },
                    )
                    &&& final(self).my_rooms@ == spec_remove_id(old(self).my_rooms@, room_id@)
                    &&& final(self).my_current_room == (if cleared {
                        None::<String>
                    } else {
                        old(self).my_current_room
                    })
                    &&& *final(self) == (RockPaperScissorsState {
                        my_stats: final(self).my_stats,
                        my_rooms: final(self).my_rooms,
                        my_current_room: final(self).my_current_room,
                        ..*old(self)
                    })
                },
                GameMessage::UpdateLeaderboard { player_chain, won } => {
                    if !old(self).is_leaderboard_chain {
                        &&& *final(self) == *old(self)
                        &&& out@ == Seq::<OutboundMessage>::empty()
                    } else {
                        &&& out@ == Seq::<OutboundMessage>::empty()
                        &&& final(self).player_stats@ == spec_record_result(
                            old(self).player_stats@,
                            player_chain,
                            won,
                            timestamp,
                        )
                        &&& final(self).global_leaderboard@ == spec_rank_entries(
                            spec_entries_of(final(self).player_stats@, old(self).player_names@),
                        )
                        &&& *final(self) == (RockPaperScissorsState {
                            player_stats: final(self).player_stats,
                            global_leaderboard: final(self).global_leaderboard,
                            ..*old(self)
                        })
                    }
                },
                GameMessage::UpdatePlayerName { player_chain, player_name } => {
                    if !old(self).is_leaderboard_chain {
                        &&& *final(self) == *old(self)
                        &&& out@ == Seq::<OutboundMessage>::empty()
                    } else {
                        &&& out@ == Seq::<OutboundMessage>::empty()
                        &&& final(self).player_names@ == spec_set_name(
                            old(self).player_names@,
                            player_chain,
                            player_name,
                        )
                        &&& *final(self) == (RockPaperScissorsState {
                            player_names: final(self).player_names,
                            ..*old(self)
                        })
                    }
                },
            },
    {
        if is_bouncing {
            return Vec::new();
        }
        match message {
            GameMessage::JoinRoom { room_id, player_chain, player_name } => {
                if !self.is_leaderboard_chain {
                    return Vec::new();
                }
                match &player_name {
                    Some(name) => {
                        self.set_player_name_entry(player_chain, name.clone());
                    }
                    None => {}
                }
                let mut success = false;
                match self.find_room_index(&room_id) {
                    Some(idx) => {
                        proof {
                            assert(old(self).rooms@[idx as int].wf());
                        }
                        if self.rooms[idx].can_join(player_chain) {
                            let mut room = self.rooms.remove(idx);
                            room.add_player(player_chain);
                            match &player_name {
                                Some(name) => {
                                    let in_slot1 = match room.player1 {
                                        Some(p) => p == player_chain,
                                        None => false,
                                    };
                                    if in_slot1 {
                                        room.player1_name = Some(name.clone());
                                    } else {
                                        let in_slot2 = match room.player2 {
                                            Some(p) => p == player_chain,
                                            None => false,
                                        };
                                        if in_slot2 {
                                            room.player2_name = Some(name.clone());
                                        }
                                    }
                                }
                                None => {}
                            }
                            success = true;
                            proof {
                                assert(room == old(self).rooms@[idx as int].spec_joined(
                                    player_chain,
                                    player_name,
                                ));
                            }
                            if room.is_full() {
                                remove_id(&mut self.available_rooms, &room_id);
                            }
                            self.rooms.insert(idx, room);
                            proof {
                                assert(self.rooms@ =~= old(self).rooms@.update(idx as int, room));
                                lemma_update_same_id_unique(old(self).rooms@, idx as int, room);
                            }
                        }
                    }
                    None => {}
                }
                let mut out: Vec<OutboundMessage> = Vec::new();
                out.push(
                    OutboundMessage {
                        destination: player_chain,
                        message: GameMessage::PlayerJoined { room_id, player_chain, success },
                    },
                );
                out
            }
            GameMessage::PlayerJoined { room_id, player_chain, success } => {
                if current_chain == player_chain && success {
                    if !contains_room_id(&self.my_rooms, &room_id) {
                        self.my_rooms.push(room_id.clone());
                    }
                    self.my_current_room = Some(room_id);
                }
                Vec::new()
            }
            GameMessage::SubmitChoice { room_id, player_chain, choice } => {
                if !self.is_leaderboard_chain {
                    return Vec::new();
                }
                let idx = match self.find_room_index(&room_id) {
                    Some(idx) => idx,
                    None => {
                        return Vec::new();
                    }
                };
                proof {
                    assert(old(self).rooms@[idx as int].wf());
                }
                let eligible = !self.rooms[idx].game_result.is_finished
                    && self.rooms[idx].get_player_number(player_chain).is_some();
                if !eligible {
                    return Vec::new();
                }
                let mut room = self.rooms.remove(idx);
                room.set_choice(player_chain, choice);
                let mut out: Vec<OutboundMessage> = Vec::new();
                if room.both_players_chose() && room.round_number < u64::MAX
                    && room.game_result.draws < u64::MAX {
                    let choice1 = room.player1_choice.unwrap();
                    let choice2 = room.player2_choice.unwrap();
                    let p1 = room.player1.unwrap();
                    let p2 = room.player2.unwrap();
                    let resolved = room.calculate_round_result().unwrap();
                    let (round_result, round_winner) = resolved;
                    out.push(
                        OutboundMessage {
                            destination: p1,
                            message: GameMessage::RoundCompleted {
                                room_id: room_id.clone(),
                                player1_choice: choice1,
                                player2_choice: choice2,
                                round_winner,
                                round_result,
                                game_result: room.game_result,
                            },
                        },
                    );
                    out.push(
                        OutboundMessage {
                            destination: p2,
                            message: GameMessage::RoundCompleted {
                                room_id: room_id.clone(),
                                player1_choice: choice1,
                                player2_choice: choice2,
                                round_winner,
                                round_result,
                                game_result: room.game_result,
                            },
                        },
                    );
                    if room.game_result.is_finished {
                        let winner = room.game_result.winner.unwrap();
                        out.push(
                            OutboundMessage {
                                destination: p1,
                                message: GameMessage::GameFinished {
                                    room_id: room_id.clone(),
                                    winner,
                                    final_result: room.game_result,
                                },
                            },
                        );
                        out.push(
                            OutboundMessage {
                                destination: p2,
                                message: GameMessage::GameFinished {
                                    room_id: room_id.clone(),
                                    winner,
                                    final_result: room.game_result,
                                },
                            },
                        );
                        if !room.private {
                            proof {
                                lemma_remove_unique(old(self).rooms@, idx as int);
                            }
                            self.update_leaderboard_stats(p1, timestamp, winner == p1);
                            self.update_leaderboard_stats(p2, timestamp, winner == p2);
                        }
                        remove_id(&mut self.available_rooms, &room_id);
                    }
                }
                self.rooms.insert(idx, room);
                proof {
                    assert(self.rooms@ =~= old(self).rooms@.update(idx as int, room));
                    lemma_update_same_id_unique(old(self).rooms@, idx as int, room);
                }
                out
            }
            GameMessage::RoundCompleted { .. } => Vec::new(),
            GameMessage::GameFinished { room_id, winner, .. } => {
                let won = winner == current_chain;
                let mut st = match self.my_stats {
                    Some(existing) => existing,
                    None => PlayerStats::new(current_chain),
                };
                if st.games_played < u64::MAX {
                    st.add_game(won, timestamp);
                }
                self.my_stats = Some(st);
                remove_id(&mut self.my_rooms, &room_id);
                let cleared = match &self.my_current_room {
                    Some(current_room) => *current_room == room_id,
                    None => false,
                };
                if cleared {
                    self.my_current_room = None;
                }
                Vec::new()
            }
            GameMessage::UpdateLeaderboard { player_chain, won } => {
                if !self.is_leaderboard_chain {
                    return Vec::new();
                }
                self.update_leaderboard_stats(player_chain, timestamp, won);
                Vec::new()
            }
            GameMessage::UpdatePlayerName { player_chain, player_name } => {
                if !self.is_leaderboard_chain {
                    return Vec::new();
                }
                self.set_player_name_entry(player_chain, player_name);
                Vec::new()
            }
        }
    }
}

/// How many rooms hold a finished game.
pub open spec fn spec_count_finished(rooms: Seq<GameRoom>) -> int
    decreases rooms.len(),
{
    if rooms.len() == 0 {
        0
    } else {
        spec_count_finished(rooms.drop_last()) + if rooms.last().game_result.is_finished {
            1int
        } else {
            0int
        }
    }
}

/// Counts never exceed the number of rooms.
proof fn lemma_count_finished_le(rooms: Seq<GameRoom>)
    ensures
        0 <= spec_count_finished(rooms) <= rooms.len(),
    decreases rooms.len(),
{
    if rooms.len() > 0 {
        lemma_count_finished_le(rooms.drop_last());
    }
}

/// The rooms of `avail` (in list order) that exist in `rooms` and are
/// still open: not full and not finished.
pub open spec fn spec_open_rooms(rooms: Seq<GameRoom>, avail: Seq<String>) -> Seq<GameRoom>
    decreases avail.len(),
{
    if avail.len() == 0 {
        Seq::empty()
    } else {
        let rest = spec_open_rooms(rooms, avail.drop_last());
        let id = avail.last()@;
        if has_room(rooms, id) && !rooms[room_index(rooms, id)].spec_is_full()
            && !rooms[room_index(rooms, id)].game_result.is_finished {
            rest.push(rooms[room_index(rooms, id)])
        } else {
            rest
        }
    }
}

/// A summary of the game population, as the read-only query layer
/// reports it.
#[derive(Clone, Copy, Debug, PartialEq, Eq, Structural)]
pub struct GameStats {
    pub total_rooms: u64,
    pub active_rooms: u64,
    pub finished_games: u64,
    pub total_players: u64,
}

impl RockPaperScissorsState {
    /// The room keyed `room_id`, if one exists.
    pub fn get_room(&self, room_id: &String) -> (r: Option<&GameRoom>)
        requires
            rooms_unique(self.rooms@),
        ensures
            r is Some <==> has_room(self.rooms@, room_id@),
            r is Some ==> *r->0 == self.rooms@[room_index(self.rooms@, room_id@)],
    {
        match self.find_room_index(room_id) {
            Some(i) => Some(&self.rooms[i]),
            None => None,
        }
    }

    /// An identity's statistics, if it has completed a game.
    pub fn get_player_stats(&self, chain_id: ChainId) -> (r: Option<PlayerStats>)
        requires
            stats_unique(self.player_stats@),
        ensures
            r is Some <==> has_stats(self.player_stats@, chain_id),
            r is Some ==> r->0 == self.player_stats@[stats_index(self.player_stats@, chain_id)],
    {
        match self.find_stats_index(chain_id) {
            Some(i) => Some(self.player_stats[i]),
            None => None,
        }
    }

    /// The rooms of the discoverable list that are still open: listed as
    /// available, existing, not full, and not finished.
    pub fn open_available_rooms(&self) -> (r: Vec<&GameRoom>)
        requires
            rooms_unique(self.rooms@),
        ensures
            r@.len() == spec_open_rooms(self.rooms@, self.available_rooms@).len(),
            forall|k: int|
                0 <= k < r@.len() ==> *r@[k] == spec_open_rooms(
                    self.rooms@,
                    self.available_rooms@,
                )[k],
    {
        let mut out: Vec<&GameRoom> = Vec::new();
        let mut i: usize = 0;
        while i < self.available_rooms.len()
            invariant
                i <= self.available_rooms@.len(),
                rooms_unique(self.rooms@),
                out@.len() == spec_open_rooms(
                    self.rooms@,
                    self.available_rooms@.take(i as int),
                ).len(),
                forall|k: int|
                    0 <= k < out@.len() ==> *out@[k] == spec_open_rooms(
                        self.rooms@,
                        self.available_rooms@.take(i as int),
                    )[k],
            decreases self.available_rooms@.len() - i,
        {
            proof {
                assert(self.available_rooms@.take(i + 1).drop_last() =~= self.available_rooms@.take(
                    i as int,
                ));
                assert(self.available_rooms@.take(i + 1).last() == self.available_rooms@[i as int]);
            }
            match self.find_room_index(&self.available_rooms[i]) {
                Some(idx) => {
                    let room = &self.rooms[idx];
                    if !room.is_full() && !room.game_result.is_finished {
                        out.push(room);
                    }
                }
                None => {}
            }
            i = i + 1;
        }
        proof {
            assert(self.available_rooms@.take(self.available_rooms@.len() as int)
                =~= self.available_rooms@);
        }
        out
    }

    /// Counts of rooms (all, still discoverable, finished) and of
    /// players with statistics.
    pub fn game_stats(&self) -> (r: GameStats)
        ensures
            r.total_rooms == self.rooms@.len(),
            r.active_rooms == self.available_rooms@.len(),
            r.finished_games == spec_count_finished(self.rooms@),
            r.total_players == self.player_stats@.len(),
    {
        let mut finished: u64 = 0;
        let mut i: usize = 0;
        proof {
            lemma_count_finished_le(self.rooms@);
        }
        while i < self.rooms.len()
            invariant
                i <= self.rooms@.len(),
                finished == spec_count_finished(self.rooms@.take(i as int)),
                finished <= i,
            decreases self.rooms@.len() - i,
        {
            proof {
                assert(self.rooms@.take(i + 1).drop_last() =~= self.rooms@.take(i as int));
                assert(self.rooms@.take(i + 1).last() == self.rooms@[i as int]);
            }
            if self.rooms[i].game_result.is_finished {
                finished = finished + 1;
            }
            i = i + 1;
        }
        proof {
            assert(self.rooms@.take(self.rooms@.len() as int) =~= self.rooms@);
        }
        GameStats {
            total_rooms: self.rooms.len() as u64,
            active_rooms: self.available_rooms.len() as u64,
            finished_games: finished,
            total_players: self.player_stats.len() as u64,
        }
    }
}

/// Rebuilding the leaderboard is deterministic and idempotent: a rebuild
/// reads only the stats table and the directory and writes only the
/// board, so two consecutive rebuilds over an unchanged stats set yield
/// the identical ordered output, and never more than the cap.
pub proof fn lemma_rebuild_idempotent(
    stats: Seq<PlayerStats>,
    names: Seq<PlayerNameEntry>,
    first: Seq<LeaderboardEntry>,
    second: Seq<LeaderboardEntry>,
)
    requires
        first == spec_rank_entries(spec_entries_of(stats, names)),
        second == spec_rank_entries(spec_entries_of(stats, names)),
    ensures
        first == second,
        first.len() <= crate::leaderboard::MAX_LEADERBOARD_LEN as int,
{
    crate::leaderboard::lemma_rank_entries_ensures(spec_entries_of(stats, names));
}

/// Replacing a room by one with the same id keeps the room ids unique.
proof fn lemma_update_same_id_unique(rooms: Seq<GameRoom>, i: int, room: GameRoom)
    requires
        rooms_unique(rooms),
        0 <= i < rooms.len(),
        room.room_id@ == rooms[i].room_id@,
    ensures
        rooms_unique(rooms.update(i, room)),
{
    let updated = rooms.update(i, room);
    assert forall|a: int, b: int| 0 <= a < b < updated.len() implies (
    #[trigger] updated[a]).room_id@ != (#[trigger] updated[b]).room_id@ by {
        assert(rooms[a].room_id@ != rooms[b].room_id@);
    }
}

/// Removing a room keeps the room ids unique and every room well formed.
proof fn lemma_remove_unique(rooms: Seq<GameRoom>, i: int)
    requires
        rooms_unique(rooms),
        forall|k: int| 0 <= k < rooms.len() ==> (#[trigger] rooms[k]).wf(),
        0 <= i < rooms.len(),
    ensures
        rooms_unique(rooms.remove(i)),
        forall|k: int| 0 <= k < rooms.remove(i).len() ==> (#[trigger] rooms.remove(i)[k]).wf(),
{
    let removed = rooms.remove(i);
    assert forall|a: int, b: int| 0 <= a < b < removed.len() implies (
    #[trigger] removed[a]).room_id@ != (#[trigger] removed[b]).room_id@ by {
        let a0 = if a < i { a } else { a + 1 };
        let b0 = if b < i { b } else { b + 1 };
        assert(removed[a] == rooms[a0]);
        assert(removed[b] == rooms[b0]);
        assert(rooms[a0].room_id@ != rooms[b0].room_id@);
    }
    assert forall|k: int| 0 <= k < removed.len() implies (#[trigger] removed[k]).wf() by {
        let k0 = if k < i { k } else { k + 1 };
        assert(removed[k] == rooms[k0]);
    }
}

} // verus!
