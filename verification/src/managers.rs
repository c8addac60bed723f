//! The values the bot shares between its commands: the default prefix and the
//! cache of guild prefixes.
use std::collections::HashMap;

use vstd::prelude::*;

verus! {

broadcast use vstd::std_specs::hash::group_hash_axioms;

/// The prefix that guilds without a stored prefix use.
pub struct DefaultPrefix {
    pub prefix: String,
}

/// The cache of guild prefixes, keyed by guild id.
pub struct GuildPrefix {
    prefixes: HashMap<u64, String>,
}

impl View for GuildPrefix {
    type V = Map<u64, String>;

    closed spec fn view(&self) -> Map<u64, String> {
        self.prefixes@
    }
}

impl GuildPrefix {
    /// An empty cache.
    pub fn new() -> (res: GuildPrefix)
        ensures
            res@ == Map::<u64, String>::empty(),
    {
        GuildPrefix { prefixes: HashMap::new() }
    }

    /// The cached prefix of `guild_id`, if any.
    pub fn get(&self, guild_id: u64) -> (res: Option<String>)
        ensures
            res == (if self@.contains_key(guild_id) {
                Some(self@[guild_id])
            } else {
                None
            }),
    {
        match self.prefixes.get(&guild_id) {
            Some(p) => Some(p.clone()),
            None => None,
        }
    }

    /// Records `prefix` as the prefix of `guild_id`, replacing an earlier one.
    pub fn insert(&mut self, guild_id: u64, prefix: String)
        ensures
            final(self)@ == old(self)@.insert(guild_id, prefix),
    {
        self.prefixes.insert(guild_id, prefix);
    }
}

} // verus!
