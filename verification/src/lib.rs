//! A verified core for a cross-node rock-paper-scissors game.
//!
//! One designated coordinator node holds the authoritative rooms, player
//! statistics and the global leaderboard; every other node keeps only a
//! mirror of its own rooms and stats.  Nodes interact exclusively through
//! the messages of [`messages::GameMessage`]; the handlers in [`state`]
//! are pure state transitions that return the messages to send, so the
//! whole protocol core is verified while delivery stays with the caller.

pub mod chain;
pub mod choice;
pub mod leaderboard;
pub mod messages;
pub mod room;
pub mod state;
pub mod stats;

pub use chain::ChainId;
pub use choice::Choice;
pub use choice::RoundResult;
pub use leaderboard::LeaderboardEntry;
pub use messages::ApplicationParameters;
pub use messages::GameError;
pub use messages::GameMessage;
pub use messages::Operation;
pub use messages::OutboundMessage;
pub use room::GameResult;
pub use room::GameRoom;
pub use room::RoundHistory;
pub use state::PlayerNameEntry;
pub use state::RockPaperScissorsState;
pub use stats::PlayerStats;
