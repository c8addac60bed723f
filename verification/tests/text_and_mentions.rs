use guild_bot::commands::config::{config, prefix, PrefixCommand};
use guild_bot::commands::moderation::{ban_reply, ban_target};
use guild_bot::commands::voice::join_reply;
use guild_bot::text::{decimal_string, parse_u64, push_decimal, starts_with};

#[test]
fn decimal_of_numbers() {
    assert_eq!(decimal_string(0), "0");
    assert_eq!(decimal_string(7), "7");
    assert_eq!(decimal_string(10), "10");
    assert_eq!(decimal_string(5432), "5432");
    assert_eq!(decimal_string(u64::MAX), "18446744073709551615");
    let mut s = String::from("port ");
    push_decimal(&mut s, 120);
    assert_eq!(s, "port 120");
}

#[test]
fn parse_like_std() {
    for text in ["0", "42", "+42", "007", "18446744073709551615", "18446744073709551616", "", "+", "-1", " 1", "1 ", "12a", "٣"] {
        assert_eq!(parse_u64(text), text.parse::<u64>().ok(), "input {:?}", text);
    }
}

#[test]
fn parse_reads_back_decimal() {
    for n in [0u64, 1, 9, 10, 99, 100, 123456789, u64::MAX - 1, u64::MAX] {
        assert_eq!(parse_u64(&decimal_string(n)), Some(n));
    }
}

#[test]
fn starts_with_like_std() {
    assert!(starts_with("https://example.com", "http"));
    assert!(starts_with("http", "http"));
    assert!(!starts_with("htt", "http"));
    assert!(!starts_with("ftp://x", "http"));
    assert!(starts_with("anything", ""));
    assert!(starts_with("é-x", "é"));
}

#[test]
fn ban_target_reads_mentions_and_ids() {
    assert_eq!(ban_target("<@123>"), Some(123));
    assert_eq!(ban_target("<@!123>"), Some(123));
    assert_eq!(ban_target("123"), Some(123));
    assert_eq!(ban_target("+77"), Some(77));
    assert_eq!(ban_target("<@12x>"), None);
    assert_eq!(ban_target("<@>"), None);
    assert_eq!(ban_target("bob"), None);
    assert_eq!(ban_target(""), None);
    // The last character is not checked: it is dropped whatever it is.
    assert_eq!(ban_target("<@456]"), Some(456));
    // Inputs on which serenity's parse would panic are refused.
    assert_eq!(ban_target("<@1é"), None);
    assert_eq!(ban_target("<@é"), None);
}

#[test]
fn mention_reads_back() {
    for id in [0u64, 5, 80351110224678912, u64::MAX] {
        let text = ban_reply(id, 1);
        let mention = text.strip_prefix("user ").unwrap().split(' ').next().unwrap().to_string();
        assert_eq!(ban_target(&mention), Some(id));
    }
}

#[test]
fn ban_reply_mentions_both_users() {
    assert_eq!(ban_reply(42, 7), "user <@42> was banned from this guild by <@7>");
}

#[test]
fn join_reply_mentions_channel() {
    let r = join_reply(81384788765712384, true);
    assert_eq!(r.text, "Joined <#81384788765712384>");
    let r = join_reply(1, false);
    assert_eq!(r.text, "Error joining the channel");
}

#[test]
fn prefix_command_answers() {
    match prefix(Some("!!"), "?") {
        PrefixCommand::Change { prefix, reply } => {
            assert_eq!(prefix, "!!");
            assert_eq!(reply, "My new prefix is: `!!`.");
        }
        PrefixCommand::Show { .. } => panic!("expected a change"),
    }
    match prefix(None, "?") {
        PrefixCommand::Show { reply } => assert_eq!(reply, "My prefix for this guild is: `?`"),
        PrefixCommand::Change { .. } => panic!("expected the current prefix"),
    }
}

#[test]
fn config_embed_fields() {
    let e = config("My Guild", 1234, "~");
    assert_eq!(e.title, "My Guild - Guild Config");
    assert_eq!(e.colour, 0x1F8B4C);
    assert_eq!(e.fields.len(), 2);
    assert_eq!(e.fields[0].name, "ID");
    assert_eq!(e.fields[0].value, "1234");
    assert!(e.fields[0].inline);
    assert_eq!(e.fields[1].name, "Prefix");
    assert_eq!(e.fields[1].value, "~");
    assert!(e.fields[1].inline);
}
