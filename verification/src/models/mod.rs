//! The bot's configuration file and the per-guild configuration row.
pub mod bot_config;
pub mod guild_config;
