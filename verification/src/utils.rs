//! Saving and resolving guild prefixes.
use vstd::prelude::*;

use crate::managers::{DefaultPrefix, GuildPrefix};
use crate::models::guild_config::{spec_guild_db_id, GuildConfig};

verus! {

/// Where the prefix of a guild's message comes from: the cache, or (when the
/// cache has none) the database row, which is then saved.
pub enum PrefixSource {
    Cached(String),
    Database,
}

/// The prefix source for `guild_id` given the cache's contents.
pub open spec fn spec_dynamic_prefix(cache: Map<u64, String>, guild_id: u64) -> PrefixSource {
    if cache.contains_key(guild_id) {
        PrefixSource::Cached(cache[guild_id])
    } else {
        PrefixSource::Database
    }
}

/// Decides where the prefix of a message in `guild_id` is taken from.
pub fn dynamic_prefix(cache: &GuildPrefix, guild_id: u64) -> (res: PrefixSource)
    ensures
        res == spec_dynamic_prefix(cache@, guild_id),
        cache@.contains_key(guild_id) ==> res == PrefixSource::Cached(cache@[guild_id]),
        !cache@.contains_key(guild_id) ==> res is Database,
{
    match cache.get(guild_id) {
        Some(p) => PrefixSource::Cached(p),
        None => PrefixSource::Database,
    }
}

/// Saves `prefix` for `guild_id`: sets it in the guild's row (the row the
/// table holds under `guild_id`'s key, which the caller writes back to the
/// database) and in the shared cache.
pub fn save_prefix(cache: &mut GuildPrefix, config: &mut GuildConfig, guild_id: u64, prefix: String)
    requires
        old(config).guild_id == spec_guild_db_id(guild_id),
    ensures
        final(config).guild_id == spec_guild_db_id(guild_id),
        final(config).prefix@ == prefix@,
        final(cache)@ == old(cache)@.insert(guild_id, prefix),
{
    config.set_prefix(prefix.as_str());
    cache.insert(guild_id, prefix);
}

/// A copy of the default prefix.
pub fn get_default_prefix(default: &DefaultPrefix) -> (res: String)
    ensures
        res@ == default.prefix@,
{
    default.prefix.clone()
}

/// Once a prefix is saved for a guild, messages in that guild are served
/// that prefix from the cache.
pub proof fn lemma_saved_prefix_is_served(cache: Map<u64, String>, guild_id: u64, prefix: String)
    ensures
        spec_dynamic_prefix(cache.insert(guild_id, prefix), guild_id) == PrefixSource::Cached(prefix),
{
}

/// Saving a prefix for one guild leaves the prefix source of every other
/// guild as it was.
pub proof fn lemma_save_prefix_keeps_other_guilds(
    cache: Map<u64, String>,
    guild_id: u64,
    prefix: String,
    other: u64,
)
    requires
        other != guild_id,
    ensures
        spec_dynamic_prefix(cache.insert(guild_id, prefix), other) == spec_dynamic_prefix(cache, other),
{
}

} // verus!
