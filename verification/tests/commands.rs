use guild_bot::commands::checks::{config_check, guild_owner_check, CheckOutcome};
use guild_bot::commands::general::{about, ping, say};
use guild_bot::commands::moderation::{ban, slow_mode, slow_mode_current_reply, slow_mode_set_reply, BanStep, SlowModeStep};
use guild_bot::commands::voice::{
    deafen, join, leave, mute, play, play_reply, undeafen, unmute, HandlerState, JoinStep, PlayStep, VoiceAction,
};
use guild_bot::commands::{Reply, ReplyKind};
use guild_bot::events::ready_message;

fn said(r: &Reply, text: &str) {
    assert!(r.kind == ReplyKind::Say);
    assert_eq!(r.text, text);
}

fn replied(r: &Reply, text: &str) {
    assert!(r.kind == ReplyKind::Reply);
    assert_eq!(r.text, text);
}

#[test]
fn owner_check() {
    assert!(matches!(guild_owner_check(Some(5), 5), CheckOutcome::Success));
    for (owner, author) in [(Some(5), 6), (Some(0), 0), (None, 0), (None, 5)] {
        match guild_owner_check(owner, author) {
            CheckOutcome::User(t) => assert_eq!(t, "Command can only be used by guild owner."),
            _ => panic!("check must fail"),
        }
    }
}

#[test]
fn config_check_outcomes() {
    let c = config_check(7, Ok(Some(7)));
    assert!(matches!(c.outcome, CheckOutcome::Success) && c.reply.is_none());
    let c = config_check(7, Ok(Some(8)));
    assert!(matches!(c.outcome, CheckOutcome::Unknown) && c.reply.is_none());
    let c = config_check(7, Err(()));
    assert!(matches!(c.outcome, CheckOutcome::Unknown) && c.reply.is_none());
    let c = config_check(7, Ok(None));
    assert!(matches!(c.outcome, CheckOutcome::Unknown));
    replied(&c.reply.unwrap(), "I'm sorry but this feature is not enabled for this guild.\nPlease ask the owner of this guild to enable this feature by running the `config` command.");
}

#[test]
fn general_answers() {
    said(&ping(), "Pong! : )");
    said(&about(), "This is a small test-bot! : )");
    let o = say(Some(3));
    assert!(!o.clean_channel && o.clean_role && o.display_as_member_from == Some(3));
    let o = say(None);
    assert!(!o.clean_channel && !o.clean_role && o.clean_user && o.display_as_member_from.is_none());
}

#[test]
fn slow_mode_steps() {
    assert!(slow_mode(Some("30")) == SlowModeStep::SetRate(30));
    assert!(slow_mode(Some("+0")) == SlowModeStep::SetRate(0));
    assert!(slow_mode(Some("thirty")) == SlowModeStep::ShowCurrent);
    assert!(slow_mode(Some("-5")) == SlowModeStep::ShowCurrent);
    assert!(slow_mode(None) == SlowModeStep::ShowCurrent);
    assert_eq!(slow_mode_set_reply(30, true), "Successfully set slow mode rate to `30` seconds.");
    assert_eq!(slow_mode_set_reply(30, false), "Failed to set slow mode to `30` seconds.");
    assert_eq!(slow_mode_current_reply(Some(Some(15))), "Current slow mode rate is `15` seconds.");
    assert_eq!(slow_mode_current_reply(Some(None)), "Current slow mode rate is `0` seconds.");
    assert_eq!(slow_mode_current_reply(None), "Failed to find channel in cache.");
}

#[test]
fn slow_mode_reads_its_own_rate() {
    for n in [0u64, 21600, u64::MAX] {
        assert!(slow_mode(Some(&n.to_string())) == SlowModeStep::SetRate(n));
    }
}

#[test]
fn ban_steps() {
    match ban(4, 4) {
        BanStep::RefuseSelf(r) => replied(&r, "you cannot ban yourself."),
        BanStep::Ban { .. } => panic!("must refuse"),
    }
    assert!(matches!(ban(4, 5), BanStep::Ban { user_id: 4 }));
}

const FRESH: HandlerState = HandlerState { self_deaf: false, self_mute: false };

fn apply(h: Option<HandlerState>, a: VoiceAction) -> Option<HandlerState> {
    match (h, a) {
        (_, VoiceAction::Leave) => None,
        (Some(s), VoiceAction::SetDeaf(b)) => Some(HandlerState { self_deaf: b, ..s }),
        (Some(s), VoiceAction::SetMute(b)) => Some(HandlerState { self_mute: b, ..s }),
        (h, _) => h,
    }
}

#[test]
fn deafen_and_mute() {
    let o = deafen(Some(1), Some(FRESH));
    assert!(o.action == VoiceAction::SetDeaf(true));
    said(&o.reply, "Deafened");
    let h = apply(Some(FRESH), o.action);
    let o = deafen(Some(1), h);
    assert!(o.action == VoiceAction::Nothing);
    said(&o.reply, "Already deafened");
    let o = undeafen(Some(1), h);
    said(&o.reply, "Undeafened");
    assert!(apply(h, o.action) == Some(FRESH));

    let o = mute(Some(1), Some(FRESH));
    said(&o.reply, "Now muted");
    let h = apply(Some(FRESH), o.action);
    let o = mute(Some(1), h);
    assert!(o.action == VoiceAction::Nothing);
    said(&o.reply, "Already muted");
    let o = unmute(Some(1), h);
    said(&o.reply, "Unmuted");
    assert!(apply(h, o.action) == Some(FRESH));
}

#[test]
fn voice_without_guild_or_handler() {
    said(&deafen(None, Some(FRESH)).reply, "DMs not supported");
    said(&mute(None, None).reply, "DMs not supported");
    said(&leave(None, None).reply, "DMs not supported");
    said(&undeafen(None, None).reply, "Error finding channel info");
    said(&unmute(None, None).reply, "Error finding channel info");
    replied(&deafen(Some(1), None).reply, "Not in a voice channel");
    replied(&mute(Some(1), None).reply, "Not in a voice channel");
    replied(&leave(Some(1), None).reply, "Not in a voice channel");
    said(&undeafen(Some(1), None).reply, "Not in a voice channel to undeafen in");
    said(&unmute(Some(1), None).reply, "Not in a voice channel to unmute in");
}

#[test]
fn leave_removes_handler() {
    let o = leave(Some(1), Some(FRESH));
    said(&o.reply, "Left voice channel");
    let h = apply(Some(FRESH), o.action);
    assert!(h.is_none());
    replied(&deafen(Some(1), h).reply, "Not in a voice channel");
}

#[test]
fn join_steps() {
    match join(None, Some(3)) {
        JoinStep::Done(r) => said(&r, "DMs not supported"),
        _ => panic!(),
    }
    match join(Some(1), None) {
        JoinStep::Done(r) => replied(&r, "Not in a voice channel"),
        _ => panic!(),
    }
    assert!(matches!(join(Some(1), Some(3)), JoinStep::Join { channel_id: 3 }));
}

#[test]
fn play_steps() {
    match play(None, Some(1), true) {
        PlayStep::Done(r) => said(&r, "Must provide a URL to a video or audio"),
        _ => panic!(),
    }
    match play(Some("ftp://x"), Some(1), true) {
        PlayStep::Done(r) => said(&r, "Must provide a valid URL"),
        _ => panic!(),
    }
    match play(Some("https://x"), None, true) {
        PlayStep::Done(r) => said(&r, "Error finding channel info"),
        _ => panic!(),
    }
    match play(Some("https://x"), Some(1), false) {
        PlayStep::Done(r) => said(&r, "Not in a voice channel to play in"),
        _ => panic!(),
    }
    assert!(matches!(play(Some("https://x"), Some(1), true), PlayStep::FetchSource));
    said(&play_reply(true), "Playing song");
    said(&play_reply(false), "Error sourcing ffmpeg");
}

#[test]
fn ready_line() {
    assert_eq!(ready_message("Bot", Some((0, 2))).unwrap(), "Bot is connected on shard 1/2!");
    assert_eq!(ready_message("Bot", Some((1, 2))).unwrap(), "Bot is connected on shard 2/2!");
    assert!(ready_message("Bot", None).is_none());
}
