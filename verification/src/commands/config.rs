//! The `config` command and its `prefix` sub-command.
use vstd::prelude::*;

use crate::discord::{build_message, dark_green};
use crate::text::{decimal, decimal_string};

verus! {

/// One field of an embed.
pub struct EmbedField {
    pub name: String,
    pub value: String,
    pub inline: bool,
}

/// The embed that `config` sends.
pub struct ConfigEmbed {
    pub title: String,
    pub colour: u32,
    pub fields: Vec<EmbedField>,
}

/// The embed of a guild's configuration: titled `<guild name> - Guild
/// Config`, dark green, with the inline fields `ID` (the guild id in decimal)
/// and `Prefix`.
pub fn config(guild_name: &str, guild_id: u64, prefix: &str) -> (res: ConfigEmbed)
    ensures
        res.title@ == guild_name@ + " - Guild Config"@,
        res.colour == 0x1F8B4Cu32,
        res.fields@.len() == 2,
        res.fields@[0].name@ == "ID"@,
        res.fields@[0].value@ == decimal(guild_id as nat),
        res.fields@[0].inline,
        res.fields@[1].name@ == "Prefix"@,
        res.fields@[1].value@ == prefix@,
        res.fields@[1].inline,
{
    let mut title = String::from_str(guild_name);
    title.append(" - Guild Config");
    let mut fields: Vec<EmbedField> = Vec::new();
    fields.push(
        EmbedField { name: String::from_str("ID"), value: decimal_string(guild_id), inline: true },
    );
    fields.push(
        EmbedField { name: String::from_str("Prefix"), value: String::from_str(prefix), inline: true },
    );
    ConfigEmbed { title, colour: dark_green(), fields }
}

/// What `prefix` does: set a new prefix (and answer), or show the current one.
pub enum PrefixCommand {
    Change { prefix: String, reply: String },
    Show { reply: String },
}

/// Decides `prefix`. `arg` is the command's first argument, if any;
/// `current` the guild's stored prefix. With an argument, the argument
/// becomes the prefix and the answer is ``My new prefix is: `<arg>`.``;
/// without, the answer is ``My prefix for this guild is: `<current>` ``.
pub fn prefix(arg: Option<&str>, current: &str) -> (res: PrefixCommand)
    ensures
        match arg {
            Some(a) => res matches PrefixCommand::Change { prefix, reply } && prefix@ == a@ && reply@
                == "My new prefix is: `"@ + a@ + "`."@,
            None => res matches PrefixCommand::Show { reply } && reply@
                == "My prefix for this guild is: `"@ + current@ + "`"@,
        },
{
    match arg {
        Some(a) => {
            let reply = build_message("My new prefix is: `", a, "`.");
            PrefixCommand::Change { prefix: String::from_str(a), reply }
        },
        None => {
            let mut reply = String::from_str("My prefix for this guild is: `");
            reply.append(current);
            reply.append("`");
            PrefixCommand::Show { reply }
        },
    }
}

} // verus!
