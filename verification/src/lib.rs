//! The decision logic of a Discord gateway bot: gateway intents, per-shard
//! presence and voice state, shard routing, the bot's run/close lifecycle and
//! the classification of raw gateway payloads.

pub mod intents;
pub mod error;
pub mod presence;
pub mod shard;
pub mod bot;
pub mod event;
