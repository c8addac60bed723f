//! The general commands `ping`, `say` and `about`.
use vstd::prelude::*;

use super::{say_text, Reply, ReplyKind};

verus! {

/// The answer to `ping`.
pub fn ping() -> (res: Reply)
    ensures
        res@ == (ReplyKind::Say, "Pong! : )"@),
{
    say_text("Pong! : )")
}

/// The answer to `about`.
pub fn about() -> (res: Reply)
    ensures
        res@ == (ReplyKind::Say, "This is a small test-bot! : )"@),
{
    say_text("This is a small test-bot! : )")
}

/// The options with which `say` cleans the text it repeats (serenity's
/// `ContentSafeOptions`, whose default sets every cleaning option and names
/// no guild).
#[derive(PartialEq, Eq, Structural, Clone, Copy, Debug)]
pub struct SayOptions {
    pub clean_role: bool,
    pub clean_user: bool,
    pub clean_channel: bool,
    pub clean_here: bool,
    pub clean_everyone: bool,
    pub show_discriminator: bool,
    pub display_as_member_from: Option<u64>,
}

/// The cleaning options of `say`: channel mentions are kept; in a guild,
/// users are shown as that guild's members; outside a guild, role mentions
/// are kept too. Everything else is cleaned.
pub fn say(guild_id: Option<u64>) -> (res: SayOptions)
    ensures
        res == (match guild_id {
            Some(g) => SayOptions {
                clean_role: true,
                clean_user: true,
                clean_channel: false,
                clean_here: true,
                clean_everyone: true,
                show_discriminator: true,
                display_as_member_from: Some(g),
            },
            None => SayOptions {
                clean_role: false,
                clean_user: true,
                clean_channel: false,
                clean_here: true,
                clean_everyone: true,
                show_discriminator: true,
                display_as_member_from: None,
            },
        }),
{
    let defaults = SayOptions {
        clean_role: true,
        clean_user: true,
        clean_channel: true,
        clean_here: true,
        clean_everyone: true,
        show_discriminator: true,
        display_as_member_from: None,
    };
    match guild_id {
        Some(g) => SayOptions { clean_channel: false, display_as_member_from: Some(g), ..defaults },
        None => SayOptions { clean_channel: false, clean_role: false, ..defaults },
    }
}

} // verus!
