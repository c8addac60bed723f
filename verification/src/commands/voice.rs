//! The voice commands: what each one does to the guild's voice handler, and
//! what it answers.
use vstd::prelude::*;

use super::{say_text, reply_text, Reply, ReplyKind};
use crate::discord::{channel_mention, spec_channel_mention};
use crate::text::{spec_starts_with, starts_with};

verus! {

/// The settings of a guild's voice handler that the commands read.
#[derive(PartialEq, Eq, Structural, Clone, Copy, Debug)]
pub struct HandlerState {
    pub self_deaf: bool,
    pub self_mute: bool,
}

/// What a voice command does to the guild's voice handler.
#[derive(PartialEq, Eq, Structural, Clone, Copy, Debug)]
pub enum VoiceAction {
    Nothing,
    SetDeaf(bool),
    SetMute(bool),
    Leave,
}

/// The action and the answer of a voice command.
pub struct VoiceOutcome {
    pub action: VoiceAction,
    pub reply: Reply,
}

impl View for VoiceOutcome {
    type V = (VoiceAction, (ReplyKind, Seq<char>));

    open spec fn view(&self) -> (VoiceAction, (ReplyKind, Seq<char>)) {
        (self.action, self.reply@)
    }
}

/// The guild's handler after `action`: deafening and muting set one flag and
/// keep the other; leaving removes the handler.
pub open spec fn apply_voice_action(handler: Option<HandlerState>, action: VoiceAction) -> Option<
    HandlerState,
> {
    match action {
        VoiceAction::Nothing => handler,
        VoiceAction::SetDeaf(b) => match handler {
            Some(h) => Some(HandlerState { self_deaf: b, self_mute: h.self_mute }),
            None => None,
        },
        VoiceAction::SetMute(b) => match handler {
            Some(h) => Some(HandlerState { self_deaf: h.self_deaf, self_mute: b }),
            None => None,
        },
        VoiceAction::Leave => None,
    }
}

/// `deafen`: in a guild with a handler that is not deafened yet, deafen it.
pub open spec fn spec_deafen(guild_id: Option<u64>, handler: Option<HandlerState>) -> (
    VoiceAction,
    (ReplyKind, Seq<char>),
) {
    match guild_id {
        None => (VoiceAction::Nothing, (ReplyKind::Say, "DMs not supported"@)),
        Some(_) => match handler {
            None => (VoiceAction::Nothing, (ReplyKind::Reply, "Not in a voice channel"@)),
            Some(h) => if h.self_deaf {
                (VoiceAction::Nothing, (ReplyKind::Say, "Already deafened"@))
            } else {
                (VoiceAction::SetDeaf(true), (ReplyKind::Say, "Deafened"@))
            },
        },
    }
}

/// `mute`: in a guild with a handler that is not muted yet, mute it.
pub open spec fn spec_mute(guild_id: Option<u64>, handler: Option<HandlerState>) -> (
    VoiceAction,
    (ReplyKind, Seq<char>),
) {
    match guild_id {
        None => (VoiceAction::Nothing, (ReplyKind::Say, "DMs not supported"@)),
        Some(_) => match handler {
            None => (VoiceAction::Nothing, (ReplyKind::Reply, "Not in a voice channel"@)),
            Some(h) => if h.self_mute {
                (VoiceAction::Nothing, (ReplyKind::Say, "Already muted"@))
            } else {
                (VoiceAction::SetMute(true), (ReplyKind::Say, "Now muted"@))
            },
        },
    }
}

/// `undeafen`: in a guild with a handler, undeafen it.
pub open spec fn spec_undeafen(guild_id: Option<u64>, handler: Option<HandlerState>) -> (
    VoiceAction,
    (ReplyKind, Seq<char>),
) {
    match guild_id {
        None => (VoiceAction::Nothing, (ReplyKind::Say, "Error finding channel info"@)),
        Some(_) => match handler {
            Some(_) => (VoiceAction::SetDeaf(false), (ReplyKind::Say, "Undeafened"@)),
            None => (
                VoiceAction::Nothing,
                (ReplyKind::Say, "Not in a voice channel to undeafen in"@),
            ),
        },
    }
}

/// `unmute`: in a guild with a handler, unmute it.
pub open spec fn spec_unmute(guild_id: Option<u64>, handler: Option<HandlerState>) -> (
    VoiceAction,
    (ReplyKind, Seq<char>),
) {
    match guild_id {
        None => (VoiceAction::Nothing, (ReplyKind::Say, "Error finding channel info"@)),
        Some(_) => match handler {
            Some(_) => (VoiceAction::SetMute(false), (ReplyKind::Say, "Unmuted"@)),
            None => (
                VoiceAction::Nothing,
                (ReplyKind::Say, "Not in a voice channel to unmute in"@),
            ),
        },
    }
}

/// `leave`: in a guild with a handler, remove it.
pub open spec fn spec_leave(guild_id: Option<u64>, handler: Option<HandlerState>) -> (
    VoiceAction,
    (ReplyKind, Seq<char>),
) {
    match guild_id {
        None => (VoiceAction::Nothing, (ReplyKind::Say, "DMs not supported"@)),
        Some(_) => match handler {
            Some(_) => (VoiceAction::Leave, (ReplyKind::Say, "Left voice channel"@)),
            None => (VoiceAction::Nothing, (ReplyKind::Reply, "Not in a voice channel"@)),
        },
    }
}

/// Decides `deafen`. `guild_id` is the guild of the message's channel, none
/// in a direct message; `handler` is that guild's voice handler, if any.
pub fn deafen(guild_id: Option<u64>, handler: Option<HandlerState>) -> (res: VoiceOutcome)
    ensures
        res@ == spec_deafen(guild_id, handler),
        guild_id is None ==> res@ == (VoiceAction::Nothing, (ReplyKind::Say, "DMs not supported"@)),
        guild_id is Some && handler is None ==> res@ == (
            VoiceAction::Nothing,
            (ReplyKind::Reply, "Not in a voice channel"@),
        ),
        handler matches Some(h) && guild_id is Some && h.self_deaf ==> res@ == (
            VoiceAction::Nothing,
            (ReplyKind::Say, "Already deafened"@),
        ),
        handler matches Some(h) && guild_id is Some && !h.self_deaf ==> res@ == (
            VoiceAction::SetDeaf(true),
            (ReplyKind::Say, "Deafened"@),
        ),
{
    match guild_id {
        None => VoiceOutcome { action: VoiceAction::Nothing, reply: say_text("DMs not supported") },
        Some(_) => match handler {
            None => VoiceOutcome {
                action: VoiceAction::Nothing,
                reply: reply_text("Not in a voice channel"),
            },
            Some(h) => if h.self_deaf {
                VoiceOutcome { action: VoiceAction::Nothing, reply: say_text("Already deafened") }
            } else {
                VoiceOutcome { action: VoiceAction::SetDeaf(true), reply: say_text("Deafened") }
            },
        },
    }
}

/// Decides `mute` (arguments as for `deafen`).
pub fn mute(guild_id: Option<u64>, handler: Option<HandlerState>) -> (res: VoiceOutcome)
    ensures
        res@ == spec_mute(guild_id, handler),
        guild_id is None ==> res@ == (VoiceAction::Nothing, (ReplyKind::Say, "DMs not supported"@)),
        guild_id is Some && handler is None ==> res@ == (
            VoiceAction::Nothing,
            (ReplyKind::Reply, "Not in a voice channel"@),
        ),
        handler matches Some(h) && guild_id is Some && h.self_mute ==> res@ == (
            VoiceAction::Nothing,
            (ReplyKind::Say, "Already muted"@),
        ),
        handler matches Some(h) && guild_id is Some && !h.self_mute ==> res@ == (
            VoiceAction::SetMute(true),
            (ReplyKind::Say, "Now muted"@),
        ),
{
    match guild_id {
        None => VoiceOutcome { action: VoiceAction::Nothing, reply: say_text("DMs not supported") },
        Some(_) => match handler {
            None => VoiceOutcome {
                action: VoiceAction::Nothing,
                reply: reply_text("Not in a voice channel"),
            },
            Some(h) => if h.self_mute {
                VoiceOutcome { action: VoiceAction::Nothing, reply: say_text("Already muted") }
            } else {
                VoiceOutcome { action: VoiceAction::SetMute(true), reply: say_text("Now muted") }
            },
        },
    }
}

/// Decides `undeafen` (arguments as for `deafen`).
pub fn undeafen(guild_id: Option<u64>, handler: Option<HandlerState>) -> (res: VoiceOutcome)
    ensures
        res@ == spec_undeafen(guild_id, handler),
        guild_id is None ==> res@ == (VoiceAction::Nothing, (ReplyKind::Say, "Error finding channel info"@)),
        guild_id is Some && handler is None ==> res@ == (
            VoiceAction::Nothing,
            (ReplyKind::Say, "Not in a voice channel to undeafen in"@),
        ),
        guild_id is Some && handler is Some ==> res@ == (
            VoiceAction::SetDeaf(false),
            (ReplyKind::Say, "Undeafened"@),
        ),
{
    match guild_id {
        None => VoiceOutcome {
            action: VoiceAction::Nothing,
            reply: say_text("Error finding channel info"),
        },
        Some(_) => match handler {
            Some(_) => VoiceOutcome {
                action: VoiceAction::SetDeaf(false),
                reply: say_text("Undeafened"),
            },
            None => VoiceOutcome {
                action: VoiceAction::Nothing,
                reply: say_text("Not in a voice channel to undeafen in"),
            },
        },
    }
}

/// Decides `unmute` (arguments as for `deafen`).
pub fn unmute(guild_id: Option<u64>, handler: Option<HandlerState>) -> (res: VoiceOutcome)
    ensures
        res@ == spec_unmute(guild_id, handler),
        guild_id is None ==> res@ == (VoiceAction::Nothing, (ReplyKind::Say, "Error finding channel info"@)),
        guild_id is Some && handler is None ==> res@ == (
            VoiceAction::Nothing,
            (ReplyKind::Say, "Not in a voice channel to unmute in"@),
        ),
        guild_id is Some && handler is Some ==> res@ == (
            VoiceAction::SetMute(false),
            (ReplyKind::Say, "Unmuted"@),
        ),
{
    match guild_id {
        None => VoiceOutcome {
            action: VoiceAction::Nothing,
            reply: say_text("Error finding channel info"),
        },
        Some(_) => match handler {
            Some(_) => VoiceOutcome { action: VoiceAction::SetMute(false), reply: say_text("Unmuted") },
            None => VoiceOutcome {
                action: VoiceAction::Nothing,
                reply: say_text("Not in a voice channel to unmute in"),
            },
        },
    }
}

/// Decides `leave` (arguments as for `deafen`).
pub fn leave(guild_id: Option<u64>, handler: Option<HandlerState>) -> (res: VoiceOutcome)
    ensures
        res@ == spec_leave(guild_id, handler),
        guild_id is None ==> res@ == (VoiceAction::Nothing, (ReplyKind::Say, "DMs not supported"@)),
        guild_id is Some && handler is None ==> res@ == (
            VoiceAction::Nothing,
            (ReplyKind::Reply, "Not in a voice channel"@),
        ),
        guild_id is Some && handler is Some ==> res@ == (
            VoiceAction::Leave,
            (ReplyKind::Say, "Left voice channel"@),
        ),
{
    match guild_id {
        None => VoiceOutcome { action: VoiceAction::Nothing, reply: say_text("DMs not supported") },
        Some(_) => match handler {
            Some(_) => VoiceOutcome { action: VoiceAction::Leave, reply: say_text("Left voice channel") },
            None => VoiceOutcome {
                action: VoiceAction::Nothing,
                reply: reply_text("Not in a voice channel"),
            },
        },
    }
}

/// The first step of `join`: answer at once, or join a voice channel.
pub enum JoinStep {
    Done(Reply),
    Join { channel_id: u64 },
}

/// Decides `join`. `guild_id` is the message's guild, none in a direct
/// message; `voice_channel` is the voice channel the author is in, if any.
pub fn join(guild_id: Option<u64>, voice_channel: Option<u64>) -> (res: JoinStep)
    ensures
        guild_id is None ==> (res matches JoinStep::Done(r) && r@ == (
            ReplyKind::Say,
            "DMs not supported"@,
        )),
        guild_id is Some && voice_channel is None ==> (res matches JoinStep::Done(r) && r@ == (
            ReplyKind::Reply,
            "Not in a voice channel"@,
        )),
        guild_id is Some && voice_channel is Some ==> res == (JoinStep::Join {
            channel_id: voice_channel->0,
        }),
{
    match guild_id {
        None => JoinStep::Done(say_text("DMs not supported")),
        Some(_) => match voice_channel {
            None => JoinStep::Done(reply_text("Not in a voice channel")),
            Some(channel_id) => JoinStep::Join { channel_id },
        },
    }
}

/// The answer of `join` once the voice manager has tried to join
/// `channel_id`: `Joined <#channel>` when it did, an error otherwise.
pub fn join_reply(channel_id: u64, joined: bool) -> (res: Reply)
    ensures
        joined ==> res@ == (ReplyKind::Say, "Joined "@ + spec_channel_mention(channel_id)),
        !joined ==> res@ == (ReplyKind::Say, "Error joining the channel"@),
{
    if joined {
        let mut text = String::from_str("Joined ");
        let mention = channel_mention(channel_id);
        text.append(mention.as_str());
        Reply { kind: ReplyKind::Say, text }
    } else {
        say_text("Error joining the channel")
    }
}

/// The first step of `play`: answer at once, or fetch the audio source of
/// the URL argument and play it.
pub enum PlayStep {
    Done(Reply),
    FetchSource,
}

/// `play`, before any source is fetched.
pub open spec fn spec_play(url: Option<Seq<char>>, guild_id: Option<u64>, has_handler: bool) -> Option<
    (ReplyKind, Seq<char>),
> {
    match url {
        None => Some((ReplyKind::Say, "Must provide a URL to a video or audio"@)),
        Some(u) => if !spec_starts_with(u, "http"@) {
            Some((ReplyKind::Say, "Must provide a valid URL"@))
        } else if guild_id is None {
            Some((ReplyKind::Say, "Error finding channel info"@))
        } else if !has_handler {
            Some((ReplyKind::Say, "Not in a voice channel to play in"@))
        } else {
            None
        },
    }
}

/// Decides `play`. `url` is the command's first argument, if any; the step
/// is `FetchSource` exactly when `spec_play` gives no immediate answer.
pub fn play(url: Option<&str>, guild_id: Option<u64>, has_handler: bool) -> (res: PlayStep)
    ensures
        match spec_play(
            match url {
                Some(u) => Some(u@),
                None => None,
            },
            guild_id,
            has_handler,
        ) {
            Some(answer) => res matches PlayStep::Done(r) && r@ == answer,
            None => res is FetchSource,
        },
        url matches Some(u) && spec_starts_with(u@, "http"@) && guild_id is Some && has_handler
            ==> res is FetchSource,
        url matches Some(u) && !spec_starts_with(u@, "http"@) ==> (res matches PlayStep::Done(r)
            && r@ == (ReplyKind::Say, "Must provide a valid URL"@)),
        url is None ==> (res matches PlayStep::Done(r) && r@ == (
            ReplyKind::Say,
            "Must provide a URL to a video or audio"@,
        )),
        url matches Some(u) && spec_starts_with(u@, "http"@) && guild_id is None ==> (res matches PlayStep::Done(r)
            && r@ == (ReplyKind::Say, "Error finding channel info"@)),
        url matches Some(u) && spec_starts_with(u@, "http"@) && guild_id is Some && !has_handler
            ==> (res matches PlayStep::Done(r) && r@ == (
            ReplyKind::Say,
            "Not in a voice channel to play in"@,
        )),
{
    match url {
        None => PlayStep::Done(say_text("Must provide a URL to a video or audio")),
        Some(u) => {
            if !starts_with(u, "http") {
                PlayStep::Done(say_text("Must provide a valid URL"))
            } else if guild_id.is_none() {
                PlayStep::Done(say_text("Error finding channel info"))
            } else if !has_handler {
                PlayStep::Done(say_text("Not in a voice channel to play in"))
            } else {
                PlayStep::FetchSource
            }
        },
    }
}

/// The answer of `play` once fetching the source succeeded or failed.
pub fn play_reply(source_ok: bool) -> (res: Reply)
    ensures
        source_ok ==> res@ == (ReplyKind::Say, "Playing song"@),
        !source_ok ==> res@ == (ReplyKind::Say, "Error sourcing ffmpeg"@),
{
    if source_ok {
        say_text("Playing song")
    } else {
        say_text("Error sourcing ffmpeg")
    }
}


/// Deafening is idempotent: after `deafen` has acted on a guild's handler,
/// the handler is deafened with its mute setting kept, and a second `deafen`
/// does nothing and answers "Already deafened".
pub proof fn lemma_deafen_twice(guild_id: u64, handler: HandlerState)
    ensures
        ({
            let after = apply_voice_action(Some(handler), spec_deafen(Some(guild_id), Some(handler)).0);
            &&& after == Some(HandlerState { self_deaf: true, self_mute: handler.self_mute })
            &&& spec_deafen(Some(guild_id), after) == (
                VoiceAction::Nothing,
                (ReplyKind::Say, "Already deafened"@),
            )
        }),
{
}

/// Muting is idempotent in the same way: after `mute`, the handler is muted
/// with its deafen setting kept, and a second `mute` answers "Already muted".
pub proof fn lemma_mute_twice(guild_id: u64, handler: HandlerState)
    ensures
        ({
            let after = apply_voice_action(Some(handler), spec_mute(Some(guild_id), Some(handler)).0);
            &&& after == Some(HandlerState { self_deaf: handler.self_deaf, self_mute: true })
            &&& spec_mute(Some(guild_id), after) == (
                VoiceAction::Nothing,
                (ReplyKind::Say, "Already muted"@),
            )
        }),
{
}

/// `undeafen` undoes `deafen`, and `unmute` undoes `mute`: the handler ends
/// neither deafened (resp. muted), with the other setting as it was.
pub proof fn lemma_undo_deafen_and_mute(guild_id: u64, handler: HandlerState)
    ensures
        ({
            let deafened = apply_voice_action(Some(handler), spec_deafen(Some(guild_id), Some(handler)).0);
            apply_voice_action(deafened, spec_undeafen(Some(guild_id), deafened).0) == Some(
                HandlerState { self_deaf: false, self_mute: handler.self_mute },
            )
        }),
        ({
            let muted = apply_voice_action(Some(handler), spec_mute(Some(guild_id), Some(handler)).0);
            apply_voice_action(muted, spec_unmute(Some(guild_id), muted).0) == Some(
                HandlerState { self_deaf: handler.self_deaf, self_mute: false },
            )
        }),
{
}

/// After `leave` the guild has no handler, and every handler command then
/// answers that the bot is not in a voice channel and does nothing.
pub proof fn lemma_after_leave(guild_id: u64, handler: HandlerState)
    ensures
        ({
            let after = apply_voice_action(Some(handler), spec_leave(Some(guild_id), Some(handler)).0);
            &&& after is None
            &&& spec_deafen(Some(guild_id), after) == (
                VoiceAction::Nothing,
                (ReplyKind::Reply, "Not in a voice channel"@),
            )
            &&& spec_mute(Some(guild_id), after) == (
                VoiceAction::Nothing,
                (ReplyKind::Reply, "Not in a voice channel"@),
            )
            &&& spec_leave(Some(guild_id), after) == (
                VoiceAction::Nothing,
                (ReplyKind::Reply, "Not in a voice channel"@),
            )
            &&& spec_undeafen(Some(guild_id), after).0 == VoiceAction::Nothing
            &&& spec_unmute(Some(guild_id), after).0 == VoiceAction::Nothing
            &&& spec_play(Some("http"@), Some(guild_id), after is Some) == Some(
                (ReplyKind::Say, "Not in a voice channel to play in"@),
            )
        }),
{
    reveal_strlit("http");
    assert("http"@.subrange(0, 4) =~= "http"@);
}

/// `play` fetches and plays every URL that starts with `http` when the guild
/// has a handler, and refuses a URL as invalid exactly when it does not start
/// with `http`, whatever the guild and handler.
pub proof fn lemma_play_checks_only_the_http_prefix(
    u: Seq<char>,
    guild_id: Option<u64>,
    has_handler: bool,
    g: u64,
)
    ensures
        spec_starts_with(u, "http"@) ==> spec_play(Some(u), Some(g), true) is None,
        !spec_starts_with(u, "http"@) <==> spec_play(Some(u), guild_id, has_handler) == Some(
            (ReplyKind::Say, "Must provide a valid URL"@),
        ),
{
    reveal_strlit("Must provide a valid URL");
    reveal_strlit("Error finding channel info");
    reveal_strlit("Not in a voice channel to play in");
    assert("Must provide a valid URL"@.len() != "Error finding channel info"@.len());
    assert("Must provide a valid URL"@.len() != "Not in a voice channel to play in"@.len());
    assert("Must provide a valid URL"@ != "Error finding channel info"@);
    assert("Must provide a valid URL"@ != "Not in a voice channel to play in"@);
}

/// On any handler, `unmute` unmutes and keeps the deafen setting, and
/// `undeafen` undeafens and keeps the mute setting; `deafen` and `mute` set
/// their own flag and keep the other whenever they act.
pub proof fn lemma_handler_commands_touch_one_flag(guild_id: u64, handler: HandlerState)
    ensures
        apply_voice_action(Some(handler), spec_unmute(Some(guild_id), Some(handler)).0) == Some(
            HandlerState { self_deaf: handler.self_deaf, self_mute: false },
        ),
        spec_unmute(Some(guild_id), Some(handler)).1 == (ReplyKind::Say, "Unmuted"@),
        apply_voice_action(Some(handler), spec_undeafen(Some(guild_id), Some(handler)).0) == Some(
            HandlerState { self_deaf: false, self_mute: handler.self_mute },
        ),
        spec_undeafen(Some(guild_id), Some(handler)).1 == (ReplyKind::Say, "Undeafened"@),
        apply_voice_action(Some(handler), spec_deafen(Some(guild_id), Some(handler)).0) == Some(
            HandlerState { self_deaf: true, self_mute: handler.self_mute },
        ),
        apply_voice_action(Some(handler), spec_mute(Some(guild_id), Some(handler)).0) == Some(
            HandlerState { self_deaf: handler.self_deaf, self_mute: true },
        ),
{
}

/// Outside a guild no voice command acts on a handler.
pub proof fn lemma_no_action_outside_guild(handler: Option<HandlerState>)
    ensures
        spec_deafen(None, handler).0 == VoiceAction::Nothing,
        spec_mute(None, handler).0 == VoiceAction::Nothing,
        spec_undeafen(None, handler).0 == VoiceAction::Nothing,
        spec_unmute(None, handler).0 == VoiceAction::Nothing,
        spec_leave(None, handler).0 == VoiceAction::Nothing,
{
}

} // verus!
