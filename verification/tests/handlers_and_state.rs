use kasu::handler::{cmd_args1, cmd_args2, event_args, event_args1, event_args2};
use kasu::context::{ToChannelId, ToMessageTs, ToMulti, ToThreadTs, ToUserId};
use kasu::callback::{Callback, Middleware, NoAction, ReplyInThread};
use kasu::cmd::{cmd_handler, select_cmd_event, translate_to_ctx, CmdParsedEvent};
use kasu::context::{multi_to_ctx, Context, FromContext, Messageable, Multi, PartialChannel, PartialUser};
use kasu::env::str_to_vec;
use kasu::event::{Event, FromEvent, WebsocketEvent, WebsocketMessageEvent, WebsocketMessageReceivedEvent, WebsocketReconnectUrlEvent};
use kasu::api::MessageData;
use kasu::handlers::{get_user_id_text, manager_list_text, msg_respond_plan, permission_test_users, result_text};
use kasu::ids::{contains_user, ChannelId, Ts, UserId};
use kasu::model::{ListAssignmentsResponse, MembersPage, MembersPager, OkResp, RoleAssignment, StrBoolean};
use kasu::redact::{replace, RedactingMakeWriter};
use kasu::state::{bot_msg_send_step, pfp_task_step, BotMsgAction, Profile};
use kasu::transform::{FromTransform, Transform};
use kasu::ws::{gen_ping, ping_message, ws_cookie, ws_url, IdleAction, IdleWatch, Reconnect, ReconnectPolicy};

fn message(text: Option<&str>, thread: Option<&str>) -> WebsocketMessageReceivedEvent {
    WebsocketMessageReceivedEvent {
        bot: None,
        channel_id: ChannelId::new("C1"),
        text: text.map(|t| t.to_string()),
        user_id: UserId::new("U1"),
        client_msg_id: None,
        team_id: "T".to_string(),
        source_team_id: "T".to_string(),
        user_team_id: "T".to_string(),
        suppress_notification: false,
        event_ts: "2.0".to_string(),
        ts: Ts::new("2.0"),
        thread_ts: thread.map(Ts::new),
        is_ephemeral: false,
    }
}

fn ctx(channel: Option<&str>, thread: Option<&str>, msg: Option<&str>, user: Option<&str>) -> Context {
    Context {
        channel_id: channel.map(ChannelId::new),
        thread_ts: thread.map(Ts::new),
        message_ts: msg.map(Ts::new),
        user_id: user.map(UserId::new),
    }
}

#[test]
fn str_boolean_round_trip() {
    assert_eq!(StrBoolean::from(true), StrBoolean::True);
    assert_eq!(StrBoolean::from_bool(false), StrBoolean::False);
    assert!(bool::from(StrBoolean::True));
    assert!(!StrBoolean::False.into_bool());
    for b in [true, false] {
        assert_eq!(StrBoolean::from(b).into_bool(), b);
    }
}

#[test]
fn ok_resp_as_result() {
    assert!(OkResp::new(true).as_result().is_ok());
    assert!(matches!(OkResp::new(false).as_result(), Err(kasu::api::ApiError::RespNotOk)));
}

#[test]
fn managers_are_the_last_manager_role() {
    let r = ListAssignmentsResponse {
        role_assignments: vec![
            RoleAssignment { role_id: "Rl0A".to_string(), users: vec![UserId::new("U1")] },
            RoleAssignment { role_id: "Rl0B".to_string(), users: vec![UserId::new("U2")] },
            RoleAssignment { role_id: "Rl0A".to_string(), users: vec![UserId::new("U3"), UserId::new("U4")] },
        ],
    };
    assert_eq!(r.channel_managers(), vec![UserId::new("U3"), UserId::new("U4")]);
    let none = ListAssignmentsResponse { role_assignments: vec![RoleAssignment { role_id: "X".to_string(), users: vec![UserId::new("U1")] }] };
    assert!(none.channel_managers().is_empty());
}

#[test]
fn members_pager_concatenates_pages() {
    let mut p = MembersPager::new();
    assert_eq!(p.next_request(), Some(None));
    p.add_page(MembersPage { members: vec![UserId::new("U1")], next_cursor: Some("c2".to_string()) });
    assert_eq!(p.next_request(), Some(Some("c2".to_string())));
    p.add_page(MembersPage { members: vec![UserId::new("U2"), UserId::new("U3")], next_cursor: None });
    assert_eq!(p.next_request(), None);
    assert_eq!(p.members, vec![UserId::new("U1"), UserId::new("U2"), UserId::new("U3")]);
}

#[test]
fn mentions_and_ids() {
    assert_eq!(UserId::new("U1").to_slack_format(), "<@U1>");
    assert_eq!(ChannelId::new("C1").to_slack_format(), "<#C1>");
    assert!(UserId::new("U1").same(&UserId::new("U1")));
    assert!(!UserId::new("U1").same(&UserId::new("U2")));
    assert!(contains_user(&vec![UserId::new("U1"), UserId::new("U2")], &UserId::new("U2")));
    assert!(!contains_user(&vec![], &UserId::new("U2")));
}

#[test]
fn context_items() {
    let c = ctx(Some("C1"), None, Some("5.0"), Some("U1"));
    let m = Messageable::from_ctx(&c).unwrap();
    assert_eq!(m.reply_target(), (ChannelId::new("C1"), None));
    assert_eq!(m.reply_in_thread_target(), (ChannelId::new("C1"), Some(Ts::new("5.0"))));
    let c2 = ctx(Some("C1"), Some("4.0"), Some("5.0"), None);
    let m2 = Messageable::from_ctx(&c2).unwrap();
    assert_eq!(m2.reply_in_thread_target().1, Some(Ts::new("4.0")));
    assert!(Messageable::from_ctx(&ctx(Some("C1"), None, None, None)).is_none());
    assert!(PartialUser::from_ctx(&c2).is_none());
    assert_eq!(PartialUser::from_ctx(&c).unwrap().user_id, UserId::new("U1"));
    let ch = PartialChannel::from_ctx(&c).unwrap();
    assert_eq!(ch.reply_target(), (ChannelId::new("C1"), None));
    assert!(matches!(Option::<PartialUser>::from_ctx(&c2), Some(None)));
    assert!(Context::from_ctx(&c).unwrap().user_id.is_some());
}

#[test]
fn context_from_metadata() {
    let m = Multi { channel_id: Some(ChannelId::new("C2")), message_ts: None, thread_ts: Some(Ts::new("1.0")), user_id: None };
    let c = multi_to_ctx(&m);
    assert_eq!(c.channel_id, Some(ChannelId::new("C2")));
    assert_eq!(c.thread_ts, Some(Ts::new("1.0")));
    assert!(c.message_ts.is_none() && c.user_id.is_none());
    assert!(Context::from(&Multi::empty()).channel_id.is_none());
}

#[test]
fn reply_in_thread_callback() {
    let c = ctx(Some("C1"), None, Some("5.0"), Some("U1"));
    let post = ReplyInThread.call(&c, "hi".to_string()).unwrap();
    assert_eq!(post.channel_id, ChannelId::new("C1"));
    assert_eq!(post.thread_ts, Some(Ts::new("5.0")));
    assert!(matches!(post.message, MessageData::Raw(ref s) if s == "hi"));
    assert!(Callback::<Option<String>>::call(&ReplyInThread, &c, None).is_none());
    assert!(ReplyInThread.call(&ctx(None, None, Some("5.0"), None), "hi".to_string()).is_none());
    let mw: Middleware<String, ReplyInThread> = Middleware::from_str("yo");
    let post = mw.call_middleware(&c).unwrap();
    assert!(matches!(post.message, MessageData::Raw(ref s) if s == "yo"));
    let nothing: Middleware<u32, NoAction> = Middleware::from_data(3);
    nothing.call_middleware(&c);
}

#[test]
fn transform_clones() {
    let v = vec![1u32, 2];
    assert_eq!(v.transform(), vec![1, 2]);
    let w: Vec<u32> = Vec::from_transform(vec![3u32]);
    assert_eq!(w, vec![3]);
}

#[test]
fn command_dispatch() {
    assert!(cmd_handler(message(None, None)).is_none());
    let (e, c) = cmd_handler(message(Some("!rm <@U9>"), Some("1.0"))).unwrap();
    assert_eq!(c.thread_ts, Some(Ts::new("1.0")));
    assert_eq!(c.message_ts, Some(Ts::new("2.0")));
    assert_eq!(c.user_id, Some(UserId::new("U1")));
    let p: CmdParsedEvent<(UserId,)> = select_cmd_event("!rm", e).unwrap();
    assert_eq!(p.arg.0, UserId::new("U9"));
    let (e, _) = cmd_handler(message(Some("!rm <@U9>"), None)).unwrap();
    assert!(select_cmd_event::<CmdParsedEvent<(UserId,)>>("!init", e).is_none());
}

#[test]
fn websocket_events_pick_their_kind() {
    let ev = Event::Websocket(WebsocketEvent::ReconnectUrl(WebsocketReconnectUrlEvent { url: "wss://x".to_string() }));
    let r = WebsocketReconnectUrlEvent::from_event(ev).unwrap();
    assert_eq!(r.url, "wss://x");
    let ev = Event::Websocket(WebsocketEvent::Message(WebsocketMessageEvent::Incoming(message(Some("a"), None))));
    let (ev, c) = translate_to_ctx(ev);
    assert_eq!(c.channel_id, Some(ChannelId::new("C1")));
    assert!(WebsocketReconnectUrlEvent::from_event(ev).is_none());
}

#[test]
fn respond_plan() {
    let plan = msg_respond_plan(&Some("Hi Kasu!".to_string()), &None);
    assert!(plan.greet && !plan.list_managers && !plan.permission_test);
    let plan = msg_respond_plan(&Some("KASU who is channel manager?".to_string()), &None);
    assert!(!plan.greet && plan.list_managers);
    let tester = Some(UserId::new("U092BGL0UUQ"));
    let plan = msg_respond_plan(&Some("kasu test channel permission".to_string()), &tester);
    assert!(plan.permission_test);
    let plan = msg_respond_plan(&Some("kasu test channel permission".to_string()), &Some(UserId::new("U1")));
    assert!(!plan.permission_test);
    let plan = msg_respond_plan(&None, &tester);
    assert!(!plan.greet && !plan.list_managers && !plan.permission_test);
}

#[test]
fn handler_texts() {
    assert_eq!(manager_list_text(&vec![UserId::new("U1"), UserId::new("U2")]), "<@U1>, <@U2>");
    assert_eq!(manager_list_text(&vec![]), "");
    assert_eq!(result_text(true), "Success");
    assert_eq!(result_text(false), "Failed");
    assert_eq!(permission_test_users(), vec![UserId::new("U092BGL0UUQ"), UserId::new("U0BGXBNBKNU")]);
    assert_eq!(get_user_id_text(&UserId::new("U7")), "Extracted user id: U7");
}

#[test]
fn websocket_address_and_pings() {
    assert_eq!(ws_url("tokc-1", None), "wss://wss-primary.slack.com/?token=tokc-1");
    assert_eq!(ws_url("tokc-1", Some("wss://other".to_string())), "wss://other");
    assert_eq!(ws_cookie("d1"), "tz=0; d=d1");
    assert_eq!(ping_message(0), "{\"type\":\"ping\",\"id\":0}");
    assert_eq!(ping_message(65535), "{\"type\":\"ping\",\"id\":65535}");
    let p = gen_ping();
    let id: u32 = p.trim_start_matches("{\"type\":\"ping\",\"id\":").trim_end_matches('}').parse().unwrap();
    assert!(id < 65536);
}

#[test]
fn idle_watch_disconnects_after_four_silent_pings() {
    let mut w = IdleWatch::new();
    for _ in 0..4 {
        assert_eq!(w.on_idle(), IdleAction::Ping);
    }
    assert_eq!(w.on_idle(), IdleAction::Disconnect);
    w.on_message();
    assert_eq!(w.on_idle(), IdleAction::Ping);
}

#[test]
fn reconnect_policy() {
    let mut p = ReconnectPolicy::new();
    assert!(matches!(p.after_connection(60_000), Reconnect::Now));
    assert_eq!(p.attempts, 0);
    let mut bases = vec![];
    for _ in 0..4 {
        match p.after_connection(10) {
            Reconnect::After { base_millis, delay } => {
                assert!(delay.as_millis() <= base_millis as u128);
                bases.push(base_millis);
            }
            Reconnect::Now => panic!("expected a delay"),
        }
    }
    assert_eq!(bases, vec![100, 10_000, 600_000, 600_000]);
    assert_eq!(p.attempts, 4);
    assert!(matches!(p.after_connection(30_001), Reconnect::Now));
    assert_eq!(p.attempts, 0);
    assert!(matches!(p.after_connection(0), Reconnect::After { base_millis: 100, .. }));
}

#[test]
fn profile_switching() {
    assert_eq!(Profile::Shy.as_path(), "assets/kasu_shy.png");
    assert_eq!(Profile::Katie.as_path(), "assets/kasu_katie.png");
    assert_eq!(pfp_task_step(Profile::Katie, 301), Some(Profile::Shy));
    assert_eq!(pfp_task_step(Profile::Katie, 300), None);
    assert_eq!(pfp_task_step(Profile::Shy, 1000), None);
    let me = UserId::new("UBOT");
    assert_eq!(bot_msg_send_step(&UserId::new("U1"), &me, Profile::Shy), BotMsgAction::Ignore);
    assert_eq!(bot_msg_send_step(&me, &me, Profile::Shy), BotMsgAction::Spoke { switch_to: Some(Profile::Katie) });
    assert_eq!(bot_msg_send_step(&me, &me, Profile::Katie), BotMsgAction::Spoke { switch_to: None });
}

#[test]
fn replace_all_occurrences() {
    assert_eq!(replace("a-b-c", "-", "+"), "a+b+c");
    assert_eq!(replace("aaa", "aa", "b"), "ba");
    assert_eq!(replace("abc", "", "."), ".a.b.c.");
    assert_eq!(replace("abc", "x", "y"), "abc");
    assert_eq!(replace("abc", "abc", "abc".replace("abc", "z").as_str()), "z");
}

#[test]
fn log_redaction() {
    let w = RedactingMakeWriter::new("tokc-1".to_string(), "tokd%2Bk".to_string()).unwrap();
    assert_eq!(w.decoded_token_d, "tokd+k");
    let out = w.write("t=tokc-1 d=tokd%2Bk dd=tokd+k".as_bytes());
    assert_eq!(out, "t=[REDACTED_XOXC] d=[REDACTED_XOXD] dd=[REDACTED_XOXD]");
    let lossy = w.write(&[0x61, 0xff, 0x62]);
    assert_eq!(lossy, "a\u{fffd}b");
    assert!(RedactingMakeWriter::new("c".to_string(), "%ff".to_string()).is_none());
    let plain = RedactingMakeWriter::new("c".to_string(), "plain".to_string()).unwrap();
    assert_eq!(plain.decoded_token_d, "plain");
}

#[test]
fn ignore_list_parsing() {
    assert_eq!(str_to_vec(" U1 , U2,U3 "), vec![UserId::new("U1"), UserId::new("U2"), UserId::new("U3")]);
    assert_eq!(str_to_vec(""), vec![UserId::new("")]);
    assert_eq!(str_to_vec("U1,,U2"), vec![UserId::new("U1"), UserId::new(""), UserId::new("U2")]);
    assert_eq!(str_to_vec("\u{3000}U1\n"), vec![UserId::new("U1")]);
}

#[test]
fn metadata_accessors() {
    let m = message(Some("x"), Some("1.0"));
    assert_eq!(m.get_channel_id(), Some(ChannelId::new("C1")));
    assert_eq!(m.get_thread_ts(), Some(Ts::new("1.0")));
    assert_eq!(m.get_ts(), Some(Ts::new("2.0")));
    assert_eq!(m.get_user_id(), Some(UserId::new("U1")));
    assert_eq!(UserId::new("U5").get_user_id(), Some(UserId::new("U5")));
    assert!(UserId::new("U5").get_channel_id().is_none());
    assert_eq!(ChannelId::new("C5").get_multi().channel_id, Some(ChannelId::new("C5")));
    assert_eq!(Ts::new("9.9").get_ts(), Some(Ts::new("9.9")));
    let r = WebsocketReconnectUrlEvent { url: "u".to_string() };
    assert!(r.get_channel_id().is_none() && r.get_user_id().is_none());
    let c = Context::from(&m);
    assert_eq!(c.message_ts, Some(Ts::new("2.0")));
}

#[test]
fn redaction_with_touching_tokens() {
    let w = RedactingMakeWriter::new("tokc-1".to_string(), "tokd-1".to_string()).unwrap();
    let out = w.write("tokc-tokc-1-1 tokd-tokd-1-1tokc-1tokd-1".as_bytes());
    assert!(!out.contains("tokc-1"));
    assert!(!out.contains("tokd-1"));
    assert_eq!(out, "tokc-[REDACTED_XOXC]-1 tokd-[REDACTED_XOXD]-1[REDACTED_XOXC][REDACTED_XOXD]");
}

#[test]
fn handler_arguments() {
    use_handler_arguments();
}

fn use_handler_arguments() {
    let ev = Event::Websocket(WebsocketEvent::Message(WebsocketMessageEvent::Incoming(message(Some("hi"), None))));
    let c = ctx(Some("C1"), None, Some("2.0"), None);
    let got = event_args2::<WebsocketMessageReceivedEvent, Messageable, Option<PartialUser>>(ev.clone(), &c).unwrap();
    assert!(got.2.is_none());
    assert!(event_args1::<WebsocketMessageReceivedEvent, PartialUser>(ev.clone(), &c).is_none());
    assert!(event_args::<WebsocketReconnectUrlEvent>(ev.clone()).is_none());
    assert!(event_args::<WebsocketMessageReceivedEvent>(ev).is_some());
    let (e, c) = cmd_handler(message(Some("!id <@U5>"), None)).unwrap();
    let (p, m) = cmd_args1::<CmdParsedEvent<(UserId,)>, Messageable>("!id", e.clone(), &c).unwrap();
    assert_eq!(p.arg.0, UserId::new("U5"));
    assert_eq!(m.message_ts, Ts::new("2.0"));
    assert!(cmd_args1::<CmdParsedEvent<(UserId,)>, Messageable>("!rm", e.clone(), &c).is_none());
    let (_, _, u) = cmd_args2::<CmdParsedEvent<(UserId,)>, Messageable, Option<PartialUser>>("!id", e, &c).unwrap();
    assert_eq!(u.unwrap().user_id, UserId::new("U1"));
}
