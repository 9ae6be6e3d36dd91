use kasu::cmd::{CmdParse, ToParsed};
use kasu::cmd::{split_command, CmdEvent};
use kasu::ids::{ChannelId, Ts, UserId};
use kasu::parser::{parse_channel_id, parse_ts, parse_user_id, word, Parse, ParseError};

#[test]
fn word_stops_at_space_or_tab() {
    assert_eq!(word("hello world"), Ok((" world", "hello".to_string())));
    assert_eq!(word("a\tb"), Ok(("\tb", "a".to_string())));
    assert_eq!(word("abc"), Ok(("", "abc".to_string())));
}

#[test]
fn word_rejects_leading_blank_and_empty() {
    assert_eq!(word(" x"), Err(ParseError));
    assert_eq!(word(""), Err(ParseError));
}

#[test]
fn word_keeps_newlines_inside() {
    assert_eq!(word("a\nb c"), Ok((" c", "a\nb".to_string())));
}

#[test]
fn bare_user_id() {
    let (rest, u) = parse_user_id("U123ABC rest").unwrap();
    assert_eq!(rest, " rest");
    assert_eq!(u.as_str(), "U123ABC");
    let (rest, u) = parse_user_id("W9x").unwrap();
    assert_eq!(rest, "");
    assert_eq!(u.as_str(), "W9x");
}

#[test]
fn bare_user_id_needs_lead_and_body() {
    assert!(parse_user_id("X123").is_err());
    assert!(parse_user_id("U").is_err());
    assert!(parse_user_id("U-1").is_err());
    assert!(parse_user_id("").is_err());
}

#[test]
fn bare_channel_id() {
    let (rest, c) = parse_channel_id("C0ABC,x").unwrap();
    assert_eq!(rest, ",x");
    assert_eq!(c.as_str(), "C0ABC");
    let (_, d) = parse_channel_id("D42").unwrap();
    assert_eq!(d.as_str(), "D42");
    assert!(parse_channel_id("U42").is_err());
}

#[test]
fn user_mention_is_read_as_its_id() {
    let (rest, u) = UserId::parse("<@U07ABC> tail").unwrap();
    assert_eq!(rest, " tail");
    assert_eq!(u.as_str(), "U07ABC");
}

#[test]
fn user_mention_label_swallows_the_closing_bracket() {
    // The label is read as a word, which runs to the next space or tab and
    // so takes the `>` with it: a labelled mention is not accepted.
    assert!(UserId::parse("<@U07ABC|kasu>").is_err());
    assert!(UserId::parse("<@U07ABC|kasu >").is_err());
    assert!(ChannelId::parse("<#C07ABC|general>").is_err());
}

#[test]
fn channel_mention_and_bare_fallback() {
    let (rest, c) = ChannelId::parse("<#C55>x").unwrap();
    assert_eq!(rest, "x");
    assert_eq!(c.as_str(), "C55");
    let (rest, c) = ChannelId::parse("C55>").unwrap();
    assert_eq!(rest, ">");
    assert_eq!(c.as_str(), "C55");
}

#[test]
fn unclosed_mention_is_rejected() {
    assert!(UserId::parse("<@U07ABC").is_err());
    assert!(UserId::parse("<#C07ABC>").is_err());
}

#[test]
fn timestamps() {
    let (rest, t) = parse_ts("1700000000.123456 x").unwrap();
    assert_eq!(rest, " x");
    assert_eq!(t.as_str(), "1700000000.123456");
    let (rest, t) = parse_ts("-.5e+3z").unwrap();
    assert_eq!(rest, "z");
    assert_eq!(t.as_str(), "-.5e+3");
    let (rest, t) = parse_ts("12.").unwrap();
    assert_eq!(rest, "");
    assert_eq!(t.as_str(), "12.");
}

#[test]
fn timestamp_errors() {
    assert!(parse_ts("abc").is_err());
    assert!(parse_ts(".").is_err());
    assert!(parse_ts("1e").is_err());
    assert!(parse_ts("1e+").is_err());
    assert!(Ts::parse("").is_err());
}

#[test]
fn optional_argument_never_fails() {
    let (rest, o) = Option::<UserId>::parse("zzz").unwrap();
    assert_eq!(rest, "zzz");
    assert!(o.is_none());
    let (rest, o) = Option::<UserId>::parse("U1 z").unwrap();
    assert_eq!(rest, " z");
    assert_eq!(o.unwrap().as_str(), "U1");
}

#[test]
fn split_at_first_space() {
    let (c, a) = split_command("!rm <@U1> now");
    assert_eq!(c, "!rm");
    assert_eq!(a, " <@U1> now");
}

#[test]
fn split_without_space() {
    let (c, a) = split_command("!init");
    assert_eq!(c, "!init");
    assert_eq!(a, " ");
}

#[test]
fn split_keeps_tab_in_command() {
    let (c, a) = split_command("a\tb c");
    assert_eq!(c, "a\tb");
    assert_eq!(a, " c");
}

fn cmd(arg_raw: &str) -> CmdEvent {
    CmdEvent {
        command: "!rm".to_string(),
        arg_raw: arg_raw.to_string(),
        user_id: UserId::new("U1"),
        channel_id: ChannelId::new("C1"),
        thread_ts: None,
        message_ts: Ts::new("1.0"),
    }
}

#[test]
fn parsed_single_user_argument() {
    let p = cmd(" <@U9>").to_parsed::<(UserId,)>().unwrap();
    assert_eq!(p.arg.0.as_str(), "U9");
    assert_eq!(p.command, "!rm");
    assert_eq!(p.arg_raw, " <@U9>");
}

#[test]
fn parsed_rejects_leftover_text() {
    assert!(cmd(" <@U9> extra").to_parsed::<(UserId,)>().is_none());
    assert!(cmd(" ").to_parsed::<()>().is_none());
}

#[test]
fn parsed_without_arguments() {
    assert!(cmd("").to_parsed::<()>().is_some());
}

#[test]
fn parsed_needs_leading_whitespace() {
    assert!(cmd("<@U9>").to_parsed::<(UserId,)>().is_none());
}

#[test]
fn parsed_two_and_three_arguments() {
    let p = cmd(" \t<#C2>\n U3").to_parsed::<(ChannelId, UserId)>().unwrap();
    assert_eq!(p.arg.0.as_str(), "C2");
    assert_eq!(p.arg.1.as_str(), "U3");
    let p = cmd(" a b 1.5").to_parsed::<(String, String, Ts)>().unwrap();
    assert_eq!(p.arg.0, "a");
    assert_eq!(p.arg.1, "b");
    assert_eq!(p.arg.2.as_str(), "1.5");
}

#[test]
fn parsed_optional_trailing_argument() {
    let p = cmd(" x").to_parsed::<(String, Option<UserId>)>();
    assert!(p.is_none());
    let p = cmd(" x U5").to_parsed::<(String, Option<UserId>)>().unwrap();
    assert_eq!(p.arg.1.unwrap().as_str(), "U5");
}

#[test]
fn bare_command_takes_an_absent_optional_argument() {
    let (_, a) = split_command("!init");
    let p = cmd(&a).to_parsed::<(Option<ChannelId>,)>().unwrap();
    assert!(p.arg.0.is_none());
    let p = cmd(" <#C77>").to_parsed::<(Option<ChannelId>,)>().unwrap();
    assert_eq!(p.arg.0.unwrap().as_str(), "C77");
}

#[test]
fn cmd_parse_and_to_parsed_traits() {
    let (rest, (u,)) = <CmdEvent as CmdParse<(UserId,)>>::parse(" U8 tail").unwrap();
    assert_eq!(rest, " tail");
    assert_eq!(u.as_str(), "U8");
    assert!(<CmdEvent as CmdParse<(UserId,)>>::parse("U8").is_err());
    let (rest, ()) = <CmdEvent as CmdParse<()>>::parse(" x").unwrap();
    assert_eq!(rest, " x");
    let p = <CmdEvent as ToParsed<(UserId,)>>::to_parsed(cmd(" <@U3>")).unwrap();
    assert_eq!(p.arg.0.as_str(), "U3");
    assert!(<CmdEvent as ToParsed<(UserId,)>>::to_parsed(cmd(" <@U3> x")).is_none());
}

#[test]
fn own_mentions_read_back() {
    for id in ["U092BGL0UUQ", "W1", "B7x"] {
        let u = UserId::new(id);
        let text = u.to_slack_format();
        let (rest, back) = UserId::parse(&text).unwrap();
        assert_eq!(rest, "");
        assert_eq!(back, u);
        let longer = format!("{} tail", text);
        let (rest, back) = UserId::parse(&longer).unwrap();
        assert_eq!(rest, " tail");
        assert_eq!(back, u);
    }
    let c = ChannelId::new("C0ABCDEF");
    let text = c.to_slack_format();
    let (rest, back) = ChannelId::parse(&text).unwrap();
    assert_eq!(rest, "");
    assert_eq!(back, c);
}

#[test]
fn split_parts_put_back_together() {
    for text in ["!rm <@U1>", "a b c", " lead", "trail "] {
        let (c, a) = split_command(text);
        assert!(!c.contains(' '));
        assert!(a.starts_with(' '));
        assert_eq!(format!("{}{}", c, a), text);
    }
}
