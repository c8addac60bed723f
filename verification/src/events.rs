//! The line the bot logs when a shard is ready.
use vstd::prelude::*;

use crate::text::{decimal, push_decimal};

verus! {

/// The log line for a ready shard: `<name> is connected on shard
/// <index + 1>/<count>!`, where `shard` is the pair (index, count) of the
/// gateway's ready event; no line when the event names no shard.
pub fn ready_message(user_name: &str, shard: Option<(u64, u64)>) -> (res: Option<String>)
    requires
        shard matches Some(s) ==> s.0 < u64::MAX,
    ensures
        match shard {
            Some((index, count)) => res matches Some(line) && line@ == user_name@
                + " is connected on shard "@ + decimal((index + 1) as nat) + seq!['/']
                + decimal(count as nat) + seq!['!'],
            None => res is None,
        },
{
    match shard {
        Some((index, count)) => {
            let mut line = String::from_str(user_name);
            line.append(" is connected on shard ");
            push_decimal(&mut line, index + 1);
            line.append("/");
            push_decimal(&mut line, count);
            line.append("!");
            proof {
                reveal_strlit("/");
                reveal_strlit("!");
            }
            Some(line)
        },
        None => None,
    }
}

} // verus!
