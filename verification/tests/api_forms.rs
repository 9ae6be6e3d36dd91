use kasu::api::{bool_to_string, channel_id_strings, join_texts, user_id_strings, APIClient, ApiError, MessageData, TokenKind};
use kasu::ids::{ChannelId, Ts, UserId};
use kasu::model::{Preference, StrBoolean};
use slack_morphism::blocks::{SlackBlock, SlackDividerBlock};

fn client(sub: Option<&str>) -> APIClient {
    APIClient::new(
        sub.map(|s| s.to_string()),
        "tokc-main".to_string(),
        "tokd-cookie".to_string(),
        "example.slack.com".to_string(),
        "T01".to_string(),
    )
}

fn pairs(f: &[(String, String)]) -> Vec<(&str, &str)> {
    f.iter().map(|(k, v)| (k.as_str(), v.as_str())).collect()
}

#[test]
fn cookie_and_endpoint() {
    let c = client(None);
    assert_eq!(c.cookie_header(), "tz=0; d=tokd-cookie");
    assert_eq!(c.endpoint("chat.postMessage"), "https://example.slack.com/api/chat.postMessage");
}

#[test]
fn base_form_picks_the_token() {
    let c = client(Some("tokc-sub"));
    assert_eq!(pairs(&c.get_base_form(TokenKind::Xoxc)), vec![("token", "tokc-main")]);
    assert_eq!(pairs(&c.get_base_form(TokenKind::SubXoxc)), vec![("token", "tokc-sub")]);
    let c = client(None);
    assert_eq!(pairs(&c.get_base_form(TokenKind::SubXoxc)), vec![("token", "tokc-main")]);
}

#[test]
fn post_message_request_plain_text_in_thread() {
    let c = client(None);
    let req = c
        .chat_post_message_request(
            &ChannelId::new("C1"),
            &Some(Ts::new("1.5")),
            &MessageData::Raw("hello".to_string()),
            "id-1".to_string(),
        )
        .unwrap();
    assert_eq!(req.url, "https://example.slack.com/api/chat.postMessage");
    assert_eq!(
        pairs(&req.fields),
        vec![
            ("token", "tokc-main"),
            ("channel", "C1"),
            ("type", "message"),
            ("client_msg_id", "id-1"),
            ("text", "hello"),
            ("thread_ts", "1.5"),
        ]
    );
    assert!(req.file.is_none());
}

#[test]
fn post_message_request_with_blocks() {
    let c = client(None);
    let blocks = vec![SlackBlock::Divider(SlackDividerBlock { block_id: None })];
    let req = c
        .chat_post_message_request(
            &ChannelId::new("C1"),
            &None,
            &MessageData::Multi("t".to_string(), blocks),
            "id-2".to_string(),
        )
        .unwrap();
    assert_eq!(
        pairs(&req.fields)[4..].to_vec(),
        vec![("text", "t"), ("blocks", "[{\"type\":\"divider\"}]")]
    );
}

#[test]
fn post_message_gets_a_fresh_uuid() {
    let c = client(None);
    let a = c.chat_post_message(&ChannelId::new("C1"), &None, &MessageData::Raw("x".to_string())).unwrap();
    let b = c.chat_post_message(&ChannelId::new("C1"), &None, &MessageData::Raw("x".to_string())).unwrap();
    assert_eq!(a.fields[3].0, "client_msg_id");
    assert_eq!(a.fields[3].1.len(), 36);
    assert_ne!(a.fields[3].1, b.fields[3].1);
}

#[test]
fn message_data_conversions() {
    assert!(matches!(MessageData::from("a".to_string()), MessageData::Raw(ref s) if s == "a"));
    assert!(matches!(MessageData::from(vec![]), MessageData::Blockkit(ref b) if b.is_empty()));
    assert!(matches!(MessageData::from(("a".to_string(), vec![])), MessageData::Multi(_, _)));
}

#[test]
fn manager_and_channel_forms() {
    let c = client(None);
    let r = c.get_channel_manager(&ChannelId::new("C9"));
    assert_eq!(r.url, "https://example.slack.com/api/admin.roles.entity.listAssignments");
    assert_eq!(pairs(&r.fields), vec![("token", "tokc-main"), ("entity_id", "C9")]);

    let r = c.change_channel_manager(
        &vec![ChannelId::new("C1"), ChannelId::new("C2")],
        &vec![UserId::new("U1")],
        "add",
    );
    assert_eq!(r.url, "https://example.slack.com/api/admin.roles.addMembers");
    assert_eq!(
        pairs(&r.fields),
        vec![("token", "tokc-main"), ("role_id", "Rl0A"), ("role_scopes", "C1,C2"), ("user_ids", "U1")]
    );

    let r = c.conversation_create("news".to_string(), true);
    assert_eq!(
        pairs(&r.fields),
        vec![("token", "tokc-main"), ("name", "news"), ("team_id", "T01"), ("is_private", "true")]
    );
}

#[test]
fn membership_forms() {
    let c = client(Some("tokc-sub"));
    let r = c.add_user(&ChannelId::new("C1"), &vec![UserId::new("U1"), UserId::new("U2")]);
    assert_eq!(r.url, "https://example.slack.com/api/conversations.invite");
    assert_eq!(
        pairs(&r.fields),
        vec![("token", "tokc-main"), ("role_id", "Rl0A"), ("channel", "C1"), ("users", "U1,U2"), ("force", "true")]
    );
    let r = c.remove_user(&ChannelId::new("C1"), &UserId::new("U2"));
    assert_eq!(r.url, "https://example.slack.com/api/conversations.kick");
    assert_eq!(pairs(&r.fields), vec![("token", "tokc-main"), ("role_id", "Rl0A"), ("channel", "C1"), ("user", "U2")]);
    let r = c.get_channel_members_page(&ChannelId::new("C1"), &None);
    assert_eq!(pairs(&r.fields), vec![("token", "tokc-sub"), ("channel", "C1")]);
    let r = c.get_channel_members_page(&ChannelId::new("C1"), &Some("cur".to_string()));
    assert_eq!(pairs(&r.fields), vec![("token", "tokc-sub"), ("channel", "C1"), ("cursor", "cur")]);
    let r = c.get_channel_info(&ChannelId::new("C3"));
    assert_eq!(r.url, "https://example.slack.com/api/conversations.info");
}

#[test]
fn photo_forms() {
    let c = client(None);
    let r = c.profile_prepare_photo("assets/kasu_shy.png".to_string());
    assert_eq!(r.url, "https://example.slack.com/api/users.preparePhoto");
    assert_eq!(pairs(&r.fields), vec![("token", "tokc-main")]);
    assert_eq!(r.file, Some(("image".to_string(), "assets/kasu_shy.png".to_string())));
    let r = c.profile_set_photo("F1".to_string());
    assert_eq!(pairs(&r.fields), vec![("token", "tokc-main"), ("id", "F1")]);
}

#[test]
fn permission_form_carries_preference_json() {
    let c = client(None);
    let p = Preference {
        who_can_post: "type:admin,user:U1".to_string(),
        can_thread: "say \"hi\"".to_string(),
        enable_at_here: StrBoolean::True,
        enable_at_channel: StrBoolean::False,
    };
    let r = c.update_channel_permission(&ChannelId::new("C1"), &p).unwrap();
    assert_eq!(r.url, "https://example.slack.com/api/channels.prefs.set");
    assert_eq!(
        pairs(&r.fields),
        vec![
            ("token", "tokc-main"),
            ("channel_id", "C1"),
            (
                "prefs",
                "{\"who_can_post\":\"type:admin,user:U1\",\"can_thread\":\"say \\\"hi\\\"\",\"enable_at_here\":\"true\",\"enable_at_channel\":\"false\"}"
            ),
        ]
    );
}

#[test]
fn joins_and_lists() {
    assert_eq!(join_texts(&vec![], ","), "");
    assert_eq!(join_texts(&vec!["a".to_string()], ","), "a");
    assert_eq!(join_texts(&vec!["a".to_string(), "b".to_string(), "c".to_string()], ", "), "a, b, c");
    assert_eq!(user_id_strings(&vec![UserId::new("U1"), UserId::new("U2")]), vec!["U1", "U2"]);
    assert_eq!(channel_id_strings(&vec![ChannelId::new("C1")]), vec!["C1"]);
    assert_eq!(bool_to_string(true), "true");
    assert_eq!(bool_to_string(false), "false");
}

#[test]
fn api_error_variants_exist() {
    let e = ApiError::RespNotOk;
    assert!(matches!(e, ApiError::RespNotOk));
}

#[test]
fn session_state() {
    let mut s = kasu::client::ClientState::new(
        None,
        "tokc-a".to_string(),
        "tokd-b".to_string(),
        "h.slack.com".to_string(),
        "T9".to_string(),
        UserId::new("UBOT"),
    );
    assert_eq!(s.get_xoxc(), "tokc-a");
    assert_eq!(s.get_xoxd(), "tokd-b");
    assert!(s.get_ws_connecting_url().is_none());
    assert_eq!(s.api_client.endpoint("x"), "https://h.slack.com/api/x");
    s.change_ws_connecting_url("wss://one".to_string());
    s.change_ws_connecting_url("wss://two".to_string());
    assert_eq!(s.get_ws_connecting_url(), Some("wss://two".to_string()));
    assert_eq!(s.user_id, UserId::new("UBOT"));
}
