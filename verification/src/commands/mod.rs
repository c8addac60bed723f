//! What each command decides and answers; the caller performs the sending,
//! the database work and the voice operations that the decisions name.
use vstd::prelude::*;

pub mod checks;
pub mod config;
pub mod general;
pub mod moderation;
pub mod voice;

verus! {

/// How an answer is sent: as a plain message in the channel, or as a reply
/// to the author's message (which mentions the author).
#[derive(PartialEq, Eq, Structural, Clone, Copy, Debug)]
pub enum ReplyKind {
    Say,
    Reply,
}

/// An answer of the bot.
pub struct Reply {
    pub kind: ReplyKind,
    pub text: String,
}

impl View for Reply {
    type V = (ReplyKind, Seq<char>);

    open spec fn view(&self) -> (ReplyKind, Seq<char>) {
        (self.kind, self.text@)
    }
}

/// A message `text` said in the channel.
pub fn say_text(text: &str) -> (res: Reply)
    ensures
        res@ == (ReplyKind::Say, text@),
{
    Reply { kind: ReplyKind::Say, text: String::from_str(text) }
}

/// A reply `text` to the author's message.
pub fn reply_text(text: &str) -> (res: Reply)
    ensures
        res@ == (ReplyKind::Reply, text@),
{
    Reply { kind: ReplyKind::Reply, text: String::from_str(text) }
}

} // verus!
