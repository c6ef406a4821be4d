//! The cross-node message taxonomy, the local commands, and the errors
//! that reject a command.

use vstd::prelude::*;
use crate::chain::ChainId;
use crate::choice::Choice;
use crate::choice::RoundResult;
use crate::room::GameResult;

verus! {

/// Configuration a node is instantiated with: which node, if any, is the
/// designated coordinator ("leaderboard chain").
#[derive(Clone, Debug)]
pub struct ApplicationParameters {
    pub leaderboard_chain_id: Option<ChainId>,
}

/// The seven cross-node messages.  Every message also travels with a
/// bounce flag, set by the environment when delivery failed; the router
/// reads that flag before any field.
#[derive(Clone, Debug)]
pub enum GameMessage {
    /// Request to join a room, sent to the coordinator.
    JoinRoom { room_id: String, player_chain: ChainId, player_name: Option<String> },
    /// Confirmation echoed back to the joining node.
    PlayerJoined { room_id: String, player_chain: ChainId, success: bool },
    /// A choice for the current round, sent to the coordinator.
    SubmitChoice { room_id: String, player_chain: ChainId, choice: Choice },
    /// Round resolution notice, fanned out to both players.
    RoundCompleted {
        room_id: String,
        player1_choice: Choice,
        player2_choice: Choice,
        round_winner: Option<ChainId>,
        round_result: RoundResult,
        game_result: GameResult,
    },
    /// Game completion notice, fanned out to both players.
    GameFinished { room_id: String, winner: ChainId, final_result: GameResult },
    /// Direct statistics bump on the coordinator.
    UpdateLeaderboard { player_chain: ChainId, won: bool },
    /// Directory update on the coordinator.
    UpdatePlayerName { player_chain: ChainId, player_name: String },
}

/// A message queued for delivery to one destination node.  Handlers
/// return these; the surrounding program performs the sends.
#[derive(Clone, Debug)]
pub struct OutboundMessage {
    pub destination: ChainId,
    pub message: GameMessage,
}

/// Local commands a node executes.
#[derive(Clone, Debug)]
pub enum Operation {
    /// Designate the coordinator node, once.
    SetupLeaderboard { leaderboard_chain_id: ChainId },
    /// Set this node's display name.
    SetPlayerName { name: String },
    /// Create a room; coordinator only.
    CreateRoom { room_id: String, private: bool },
    /// Ask the coordinator to join a room.
    JoinRoom { room_id: String },
    /// Send a choice for a room's current round to the coordinator.
    SubmitChoice { room_id: String, choice: Choice },
    /// Pure read; answered by the query layer, mutates nothing.
    GetAvailableRooms,
    /// Pure read; answered by the query layer, mutates nothing.
    GetRoom { room_id: String },
    /// Pure read; answered by the query layer, mutates nothing.
    GetLeaderboard,
    /// Pure read; answered by the query layer, mutates nothing.
    GetMyStats,
    /// Clear rooms, stats and leaderboard together; coordinator only.
    ResetLeaderboard,
}

/// Why a command was rejected.  A rejected command changes no state.
#[derive(Clone, Copy, Debug, PartialEq, Eq, Structural)]
pub enum GameError {
    /// SetupLeaderboard on a node whose coordinator is already set.
    LeaderboardAlreadyConfigured,
    /// JoinRoom or SubmitChoice with no coordinator configured.
    LeaderboardNotConfigured,
    /// A coordinator-only command issued on another node.
    NotLeaderboardChain,
    /// CreateRoom with a room id already in use.
    RoomAlreadyExists,
}

} // verus!
