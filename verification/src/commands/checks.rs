//! The checks that guard command groups.
use vstd::prelude::*;

use super::{reply_text, Reply, ReplyKind};

verus! {

/// The result of a check: pass, fail with a message for the user, or fail
/// without one.
pub enum CheckOutcome {
    Success,
    User(String),
    Unknown,
}

/// The message of the guild-owner check when it fails.
pub open spec fn owner_only_text() -> Seq<char> {
    "Command can only be used by guild owner."@
}

/// The answer when a guild has not enabled its configuration.
pub open spec fn config_disabled_text() -> Seq<char> {
    "I'm sorry but this feature is not enabled for this guild.\nPlease ask the owner of this guild to enable this feature by running the `config` command."@
}

/// The guild-owner check passes exactly when the message comes from a known
/// guild whose owner id is not 0 and the author is that owner.
pub open spec fn spec_owner_check_passes(owner_id: Option<u64>, author_id: u64) -> bool {
    let owner = match owner_id {
        Some(o) => o,
        None => 0,
    };
    owner != 0 && author_id == owner
}

/// The guild-owner check. `owner_id` is the owner of the message's guild,
/// none when the guild is not known.
pub fn guild_owner_check(owner_id: Option<u64>, author_id: u64) -> (res: CheckOutcome)
    ensures
        spec_owner_check_passes(owner_id, author_id) ==> res is Success,
        !spec_owner_check_passes(owner_id, author_id) ==> (res matches CheckOutcome::User(t)
            && t@ == owner_only_text()),
        (owner_id matches Some(o) && o != 0 && author_id == o) <==> res is Success,
{
    let owner: u64 = match owner_id {
        Some(o) => o,
        None => 0,
    };
    if owner != 0 {
        if author_id == owner {
            return CheckOutcome::Success;
        }
    }
    CheckOutcome::User(String::from_str("Command can only be used by guild owner."))
}

/// The outcome of the configuration check, and the answer it sends, if any.
pub struct ConfigCheck {
    pub outcome: CheckOutcome,
    pub reply: Option<Reply>,
}

/// The configuration check of the voice commands. `stored` is the result of
/// looking the guild up in the `guild_config` table: the stored guild id of
/// the row found, none when there is no row, or an error.
pub fn config_check(guild_id: i64, stored: Result<Option<i64>, ()>) -> (res: ConfigCheck)
    ensures
        match stored {
            Ok(Some(g)) => (g == guild_id ==> res.outcome is Success) && (g != guild_id
                ==> res.outcome is Unknown) && res.reply is None,
            Ok(None) => res.outcome is Unknown && (res.reply matches Some(r) && r@ == (
                ReplyKind::Reply,
                config_disabled_text(),
            )),
            Err(_) => res.outcome is Unknown && res.reply is None,
        },
{
    match stored {
        Err(_) => ConfigCheck { outcome: CheckOutcome::Unknown, reply: None },
        Ok(Some(g)) => {
            if g == guild_id {
                ConfigCheck { outcome: CheckOutcome::Success, reply: None }
            } else {
                ConfigCheck { outcome: CheckOutcome::Unknown, reply: None }
            }
        },
        Ok(None) => ConfigCheck {
            outcome: CheckOutcome::Unknown,
            reply: Some(
                reply_text(
                    "I'm sorry but this feature is not enabled for this guild.\nPlease ask the owner of this guild to enable this feature by running the `config` command.",
                ),
            ),
        },
    }
}


/// The guild-owner check passes exactly for the guild's owner: when the
/// guild is known, its owner id `o` is not 0, and the author is `o`. In
/// particular every non-zero owner passes their own check.
pub proof fn lemma_owner_check_passes_exactly_for_owner(owner_id: Option<u64>, author_id: u64, o: u64)
    ensures
        spec_owner_check_passes(owner_id, author_id) <==> (owner_id matches Some(x) && x != 0
            && author_id == x),
        o != 0 ==> spec_owner_check_passes(Some(o), o),
        !spec_owner_check_passes(None, author_id),
        !spec_owner_check_passes(Some(0), author_id),
{
}

} // verus!
