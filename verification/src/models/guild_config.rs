//! The `guild_config` row that stores a guild's command prefix.
use vstd::prelude::*;

verus! {

/// One row of the `guild_config` table.
pub struct GuildConfig {
    pub guild_id: i64,
    pub prefix: String,
}

/// What looking a guild up in the table leads to: the stored row, or a new
/// row with the default prefix that has to be inserted.
pub enum GuildConfigLookup {
    Found(GuildConfig),
    Missing(GuildConfig),
}

/// The number under which a guild id is stored in the table: the id's bits
/// read as a signed 64-bit integer (what `id as i64` gives).
pub open spec fn spec_guild_db_id(guild_id: u64) -> i64 {
    if guild_id <= i64::MAX as u64 {
        guild_id as i64
    } else {
        (guild_id - 0x1_0000_0000_0000_0000int) as i64
    }
}

/// The table's key for a guild id.
pub fn guild_db_id(guild_id: u64) -> (res: i64)
    ensures
        res == spec_guild_db_id(guild_id),
        guild_id <= i64::MAX ==> res as int == guild_id as int,
        guild_id > i64::MAX ==> res as int == guild_id as int - 0x1_0000_0000_0000_0000int,
{
    if guild_id <= i64::MAX as u64 {
        guild_id as i64
    } else {
        let high: u64 = guild_id - 0x8000_0000_0000_0000u64;
        (high as i64) + i64::MIN
    }
}

impl GuildConfig {
    /// The configuration of `guild_id`, given the row the table holds for it
    /// (`stored`): that row when there is one; otherwise a new row with the
    /// default prefix, which the caller inserts.
    pub fn get(guild_id: i64, default_prefix: &str, stored: Option<GuildConfig>) -> (res:
        GuildConfigLookup)
        ensures
            match stored {
                Some(row) => res == GuildConfigLookup::Found(row),
                None => res matches GuildConfigLookup::Missing(row) && row.guild_id == guild_id
                    && row.prefix@ == default_prefix@,
            },
    {
        match stored {
            Some(row) => GuildConfigLookup::Found(row),
            None => GuildConfigLookup::Missing(
                GuildConfig { guild_id, prefix: String::from_str(default_prefix) },
            ),
        }
    }

    /// Sets the prefix of this row; the caller writes the row back.
    pub fn set_prefix(&mut self, prefix: &str)
        ensures
            final(self).guild_id == old(self).guild_id,
            final(self).prefix@ == prefix@,
    {
        self.prefix = String::from_str(prefix);
    }
}

} // verus!
