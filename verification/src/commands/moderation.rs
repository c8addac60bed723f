//! The moderation commands `slow_mode` and `ban`.
use vstd::prelude::*;

use super::{reply_text, Reply, ReplyKind};
use crate::discord::{
    parse_user_id, spec_user_id_from_str, spec_user_mention, user_id_parse_panics, user_mention,
};
use crate::text::{decimal, lemma_parse_decimal_roundtrip, parse_u64, push_decimal, spec_parse_u64, starts_with};

verus! {

/// The first step of `slow_mode`: set the channel's rate to the number given
/// as argument, or, without a number, report the current rate.
#[derive(PartialEq, Eq, Structural, Clone, Copy, Debug)]
pub enum SlowModeStep {
    SetRate(u64),
    ShowCurrent,
}

/// `slow_mode` on its argument (the command's first argument, if any).
pub open spec fn spec_slow_mode(arg: Option<Seq<char>>) -> SlowModeStep {
    match arg {
        Some(a) => match spec_parse_u64(a) {
            Some(rate) => SlowModeStep::SetRate(rate),
            None => SlowModeStep::ShowCurrent,
        },
        None => SlowModeStep::ShowCurrent,
    }
}

/// Decides `slow_mode` from its first argument: a number of seconds (read as
/// `u64::from_str` reads it) sets the rate; anything else shows it.
pub fn slow_mode(arg: Option<&str>) -> (res: SlowModeStep)
    ensures
        res == spec_slow_mode(
            match arg {
                Some(a) => Some(a@),
                None => None,
            },
        ),
        arg matches Some(a) ==> (spec_parse_u64(a@) matches Some(rate) ==> res
            == SlowModeStep::SetRate(rate)),
        arg matches Some(a) && spec_parse_u64(a@) is None ==> res == SlowModeStep::ShowCurrent,
        arg is None ==> res == SlowModeStep::ShowCurrent,
{
    match arg {
        Some(a) => match parse_u64(a) {
            Some(rate) => SlowModeStep::SetRate(rate),
            None => SlowModeStep::ShowCurrent,
        },
        None => SlowModeStep::ShowCurrent,
    }
}

/// The answer after trying to set the rate to `rate` seconds.
pub open spec fn spec_slow_mode_set_reply(rate: u64, edited: bool) -> Seq<char> {
    if edited {
        "Successfully set slow mode rate to `"@ + decimal(rate as nat) + "` seconds."@
    } else {
        "Failed to set slow mode to `"@ + decimal(rate as nat) + "` seconds."@
    }
}

/// The answer of `slow_mode` once the channel edit succeeded or failed.
pub fn slow_mode_set_reply(rate: u64, edited: bool) -> (res: String)
    ensures
        res@ == spec_slow_mode_set_reply(rate, edited),
        edited ==> res@ == "Successfully set slow mode rate to `"@ + decimal(rate as nat)
            + "` seconds."@,
        !edited ==> res@ == "Failed to set slow mode to `"@ + decimal(rate as nat) + "` seconds."@,
{
    let mut text = if edited {
        String::from_str("Successfully set slow mode rate to `")
    } else {
        String::from_str("Failed to set slow mode to `")
    };
    push_decimal(&mut text, rate);
    text.append("` seconds.");
    text
}

/// The answer of `slow_mode` without a rate. `channel` is the cached guild
/// channel's slow-mode rate (itself optional), none when the channel is not
/// a guild channel in the cache; an absent rate counts as 0.
pub fn slow_mode_current_reply(channel: Option<Option<u64>>) -> (res: String)
    ensures
        match channel {
            Some(rate) => res@ == "Current slow mode rate is `"@ + decimal(
                (match rate {
                    Some(r) => r,
                    None => 0u64,
                }) as nat,
            ) + "` seconds."@,
            None => res@ == "Failed to find channel in cache."@,
        },
{
    match channel {
        Some(rate) => {
            let seconds: u64 = match rate {
                Some(r) => r,
                None => 0,
            };
            let mut text = String::from_str("Current slow mode rate is `");
            push_decimal(&mut text, seconds);
            text.append("` seconds.");
            text
        },
        None => String::from_str("Failed to find channel in cache."),
    }
}

/// Whatever the rate, a successful edit is reported as a success and a failed
/// one as a failure, each naming the rate in decimal.
pub proof fn lemma_slow_mode_set_reply_reports_edit(rate: u64, edited: bool)
    ensures
        edited ==> spec_slow_mode_set_reply(rate, edited)
            == "Successfully set slow mode rate to `"@ + decimal(rate as nat) + "` seconds."@,
        !edited ==> spec_slow_mode_set_reply(rate, edited)
            == "Failed to set slow mode to `"@ + decimal(rate as nat) + "` seconds."@,
{
}

/// A number of seconds written out in decimal is read back by `slow_mode` as
/// that number: the rate it sets is the rate its answer reports.
pub proof fn lemma_slow_mode_reads_decimal(rate: u64)
    ensures
        spec_slow_mode(Some(decimal(rate as nat))) == SlowModeStep::SetRate(rate),
{
    lemma_parse_decimal_roundtrip(rate);
}

/// The user `ban` acts on, read from its argument as serenity's `UserId`
/// parse reads it; none where that parse fails or panics (on either, the
/// command stops without banning anyone).
pub fn ban_target(arg: &str) -> (res: Option<u64>)
    ensures
        res == (if user_id_parse_panics(arg@) {
            None
        } else {
            spec_user_id_from_str(arg@)
        }),
{
    proof {
        reveal_strlit("<@");
        assert("<@"@ =~= seq!['<', '@']);
    }
    let len = arg.unicode_len();
    if starts_with(arg, "<@") && len >= 3 && (arg.get_char(len - 1) as u32) >= 128 {
        return None;
    }
    parse_user_id(arg)
}

/// What `ban` does: refuse when the author names themself, or ban the user.
pub enum BanStep {
    RefuseSelf(Reply),
    Ban { user_id: u64 },
}

/// Decides `ban` for the user `target` named by the author `author_id`.
pub fn ban(target: u64, author_id: u64) -> (res: BanStep)
    ensures
        target == author_id ==> (res matches BanStep::RefuseSelf(r) && r@ == (
            ReplyKind::Reply,
            "you cannot ban yourself."@,
        )),
        target != author_id ==> res == (BanStep::Ban { user_id: target }),
{
    if target == author_id {
        BanStep::RefuseSelf(reply_text("you cannot ban yourself."))
    } else {
        BanStep::Ban { user_id: target }
    }
}

/// The answer (a reply) after `target` was banned by `author_id`.
pub fn ban_reply(target: u64, author_id: u64) -> (res: String)
    ensures
        res@ == "user "@ + spec_user_mention(target) + " was banned from this guild by "@
            + spec_user_mention(author_id),
{
    let mut text = String::from_str("user ");
    let target_mention = user_mention(target);
    text.append(target_mention.as_str());
    text.append(" was banned from this guild by ");
    let author_mention = user_mention(author_id);
    text.append(author_mention.as_str());
    text
}

} // verus!
