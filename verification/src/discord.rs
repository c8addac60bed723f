//! The few computations that the bot takes from `serenity`: mentions, the
//! parse of a user argument, the message builder and the embed colour.
use std::str::FromStr;

use serenity::model::id::{ChannelId, UserId};
use serenity::model::misc::Mentionable;
use serenity::utils::{Colour, MessageBuilder};
use vstd::prelude::*;

use crate::text::{decimal, lemma_parse_decimal_roundtrip, lemma_decimal_digits, is_digit, spec_parse_u64, spec_starts_with};

verus! {

/// The text that mentions the user `id`: `<@id>`.
pub open spec fn spec_user_mention(id: u64) -> Seq<char> {
    seq!['<', '@'] + decimal(id as nat) + seq!['>']
}

/// The text that mentions the channel `id`: `<#id>`.
pub open spec fn spec_channel_mention(id: u64) -> Seq<char> {
    seq!['<', '#'] + decimal(id as nat) + seq!['>']
}

/// The inputs on which serenity's user-id parse slices inside a character and
/// panics: a string that starts with `<@`, has at least three characters, and
/// whose last character is not ASCII.
pub open spec fn user_id_parse_panics(s: Seq<char>) -> bool {
    spec_starts_with(s, seq!['<', '@']) && s.len() >= 3 && (s.last() as u32) >= 128
}

/// The id inside a user mention `<@id>` or `<@!id>`, as serenity's
/// `parse_username` reads it: the characters between the prefix and the
/// (unchecked) last character, parsed as a `u64`.
pub open spec fn spec_parse_username(s: Seq<char>) -> Option<u64> {
    if s.len() >= 4 && spec_starts_with(s, seq!['<', '@', '!']) {
        spec_parse_u64(s.subrange(3, s.len() - 1))
    } else if s.len() >= 4 && spec_starts_with(s, seq!['<', '@']) {
        spec_parse_u64(s.subrange(2, s.len() - 1))
    } else {
        None
    }
}

/// What `UserId::from_str` gives for `s`: the id of a mention, or else the
/// whole string parsed as a `u64`.
pub open spec fn spec_user_id_from_str(s: Seq<char>) -> Option<u64> {
    match spec_parse_username(s) {
        Some(id) => Some(id),
        None => spec_parse_u64(s),
    }
}

/// Calls serenity's `Mentionable::mention` on `UserId(id)`; serenity's source
/// formats it as `<@{id}>`, the id in decimal.
#[verifier::external_body]
pub(crate) fn user_mention(id: u64) -> (res: String)
    ensures
        res@ == spec_user_mention(id),
{
    UserId(id).mention()
}

/// Calls serenity's `Mentionable::mention` on `ChannelId(id)`; serenity's
/// source formats it as `<#{id}>`, the id in decimal.
#[verifier::external_body]
pub(crate) fn channel_mention(id: u64) -> (res: String)
    ensures
        res@ == spec_channel_mention(id),
{
    ChannelId(id).mention()
}

/// Calls serenity's `UserId::from_str`, which tries `utils::parse_username`
/// and falls back to `u64::from_str` on the whole string. The contract states
/// that behaviour; the inputs on which serenity's slicing panics are excluded.
#[verifier::external_body]
pub(crate) fn parse_user_id(s: &str) -> (res: Option<u64>)
    requires
        !user_id_parse_panics(s@),
    ensures
        res == spec_user_id_from_str(s@),
{
    match UserId::from_str(s) {
        Ok(user) => Some(user.0),
        Err(_) => None,
    }
}

/// Calls serenity's `MessageBuilder::new`, `push` three times and `build`.
/// Serenity's source pushes plain text unchanged, so the result is the three
/// parts one after the other.
#[verifier::external_body]
pub(crate) fn build_message(first: &str, second: &str, third: &str) -> (res: String)
    ensures
        res@ == first@ + second@ + third@,
{
    MessageBuilder::new().push(first).push(second).push(third).build()
}

/// Reads serenity's `Colour::DARK_GREEN`, whose value in serenity's source is
/// `0x1F8B4C`.
#[verifier::external_body]
pub(crate) fn dark_green() -> (res: u32)
    ensures
        res == 0x1F8B4Cu32,
{
    Colour::DARK_GREEN.0
}


/// A user mention written by the bot names, when read back as a command
/// argument, the same user: serenity's user-id parse of `<@id>` is `id`, and
/// does not panic on it.
pub proof fn lemma_user_mention_roundtrip(id: u64)
    ensures
        !user_id_parse_panics(spec_user_mention(id)),
        spec_user_id_from_str(spec_user_mention(id)) == Some(id),
{
    let m = spec_user_mention(id);
    let d = decimal(id as nat);
    lemma_decimal_digits(id as nat);
    lemma_parse_decimal_roundtrip(id);
    assert(m.subrange(2, m.len() - 1) =~= d);
    assert(m.subrange(0, 2) =~= seq!['<', '@']);
    assert(m[2] == d[0]);
    assert(is_digit(d[0]));
    assert(!spec_starts_with(m, seq!['<', '@', '!'])) by {
        if spec_starts_with(m, seq!['<', '@', '!']) {
            assert(m.subrange(0, 3)[2] == '!');
        }
    }
    assert(m.last() == '>');
}

} // verus!
