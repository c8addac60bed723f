//! The decisions of a Discord guild bot: configuration, prefixes, checks,
//! command replies and voice-handler actions, separated from the I/O that
//! carries them out.
pub mod commands;
pub mod discord;
pub mod events;
pub mod managers;
pub mod models;
pub mod text;
pub mod utils;
