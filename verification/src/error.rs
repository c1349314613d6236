//! The errors the library reports.
use vstd::prelude::*;

verus! {

/// Why a request to the bot or one of its shards was refused.
#[derive(Clone, Copy, Debug, PartialEq, Eq, Structural)]
pub enum BotError {
    /// The bot is not connected to the gateway.
    NotRunning,
    /// The bot was asked to run while it is already connected.
    AlreadyRunning,
    /// No shard serves the guild that a request names.
    ShardNotFound,
    /// The intents hold a bit that is not an intent.
    InvalidIntents,
    /// A presence status is not one of "online", "idle", "dnd" and "offline".
    InvalidStatus,
}

} // verus!
