use kasu::flow::{intersect_accepted, ChannelJoin, FlowAction, FlowInput, InitChannel, RemoveUser};
use kasu::ids::{ChannelId, UserId};

fn u(s: &str) -> UserId {
    UserId::new(s)
}

fn c() -> ChannelId {
    ChannelId::new("C1")
}

fn users(v: &[&str]) -> Vec<UserId> {
    v.iter().map(|s| u(s)).collect()
}

fn thread_text(a: FlowAction) -> String {
    match a {
        FlowAction::ReplyInThread(t) => t,
        other => panic!("expected a thread reply, got {:?}", other),
    }
}

fn channel_text(a: FlowAction) -> String {
    match a {
        FlowAction::ReplyInChannel(t) => t,
        other => panic!("expected a channel post, got {:?}", other),
    }
}

#[test]
fn remove_user_full_run() {
    let mut f = RemoveUser::new(c(), u("U2"), Some(u("U1")));
    assert!(matches!(f.step(FlowInput::Done(true)), FlowAction::FetchManagers(ref ch) if ch.as_str() == "C1"));
    assert!(matches!(f.step(FlowInput::Managers(Some(users(&["U1", "U9"])))), FlowAction::CountRegistrations(_)));
    assert!(matches!(f.step(FlowInput::Count(1)), FlowAction::DeleteAccepted(ref ch, ref t) if ch.as_str() == "C1" && t.as_str() == "U2"));
    assert!(matches!(f.step(FlowInput::Rows(Some(1))), FlowAction::Kick(_, ref t) if t.as_str() == "U2"));
    assert_eq!(thread_text(f.step(FlowInput::Done(true))), "Remove from slack channel: true\nRemove from db: true");
    assert!(matches!(f.step(FlowInput::Done(true)), FlowAction::Finish));
}

#[test]
fn remove_user_reports_failures() {
    let mut f = RemoveUser::new(c(), u("U2"), Some(u("U1")));
    f.step(FlowInput::Done(true));
    f.step(FlowInput::Managers(Some(users(&["U1"]))));
    f.step(FlowInput::Count(3));
    f.step(FlowInput::Rows(Some(0)));
    assert_eq!(thread_text(f.step(FlowInput::Done(false))), "Remove from slack channel: false\nRemove from db: false");
}

#[test]
fn remove_user_failed_delete_counts_as_not_removed() {
    let mut f = RemoveUser::new(c(), u("U2"), Some(u("U1")));
    f.step(FlowInput::Done(true));
    f.step(FlowInput::Managers(Some(users(&["U1"]))));
    f.step(FlowInput::Count(3));
    f.step(FlowInput::Rows(None));
    assert_eq!(thread_text(f.step(FlowInput::Done(true))), "Remove from slack channel: true\nRemove from db: false");
}

#[test]
fn remove_user_without_sender() {
    let mut f = RemoveUser::new(c(), u("U2"), None);
    assert_eq!(thread_text(f.step(FlowInput::Done(true))), "Unable to identify sender");
    assert!(matches!(f.step(FlowInput::Done(true)), FlowAction::Finish));
}

#[test]
fn remove_user_refusals() {
    let mut f = RemoveUser::new(c(), u("U2"), Some(u("U1")));
    f.step(FlowInput::Done(true));
    assert_eq!(thread_text(f.step(FlowInput::Managers(None))), "Unable to identify channel manager");

    let mut f = RemoveUser::new(c(), u("U2"), Some(u("U1")));
    f.step(FlowInput::Done(true));
    assert_eq!(
        thread_text(f.step(FlowInput::Managers(Some(users(&["U3"]))))),
        "Request failed: you are not a channel manager"
    );

    let mut f = RemoveUser::new(c(), u("U2"), Some(u("U1")));
    f.step(FlowInput::Done(true));
    assert_eq!(
        thread_text(f.step(FlowInput::Managers(Some(users(&["U1", "U2"]))))),
        "Cannot remove channel manager (for safety reason), please remove them as channel manager manually first."
    );

    let mut f = RemoveUser::new(c(), u("U2"), Some(u("U1")));
    f.step(FlowInput::Done(true));
    f.step(FlowInput::Managers(Some(users(&["U1"]))));
    assert_eq!(thread_text(f.step(FlowInput::Count(0))), "This channel have already not been registered");
}

#[test]
fn remove_user_unexpected_input_finishes() {
    let mut f = RemoveUser::new(c(), u("U2"), Some(u("U1")));
    f.step(FlowInput::Done(true));
    assert!(matches!(f.step(FlowInput::Count(1)), FlowAction::Finish));
    assert!(matches!(f.step(FlowInput::Managers(Some(users(&["U1"])))), FlowAction::Finish));
}

#[test]
fn init_channel_full_run() {
    let mut f = InitChannel::new(c(), Some(u("U1")), u("UBOT"));
    assert!(matches!(f.step(FlowInput::Done(true)), FlowAction::CountRegistrations(_)));
    assert!(matches!(f.step(FlowInput::Count(0)), FlowAction::FetchManagers(_)));
    assert!(matches!(f.step(FlowInput::Managers(Some(users(&["UBOT", "U1"])))), FlowAction::Register(_)));
    assert!(matches!(f.step(FlowInput::Done(true)), FlowAction::FetchMembers(_)));
    assert!(matches!(f.step(FlowInput::Members(users(&["U1", "U5"]))), FlowAction::AcceptUser(_, ref x) if x.as_str() == "U1"));
    assert!(matches!(f.step(FlowInput::Done(true)), FlowAction::AcceptUser(_, ref x) if x.as_str() == "U5"));
    match f.step(FlowInput::Done(true)) {
        FlowAction::RestrictPosting(ch, v) => {
            assert_eq!(ch.as_str(), "C1");
            assert_eq!(v, users(&["U1", "U5"]));
        }
        other => panic!("unexpected {:?}", other),
    }
    assert_eq!(thread_text(f.step(FlowInput::Done(true))), "Setup completed with 2 users added to whitelist");
    assert!(matches!(f.step(FlowInput::Done(true)), FlowAction::Finish));
}

#[test]
fn init_channel_with_no_members() {
    let mut f = InitChannel::new(c(), Some(u("U1")), u("UBOT"));
    f.step(FlowInput::Done(true));
    f.step(FlowInput::Count(0));
    f.step(FlowInput::Managers(Some(users(&["UBOT", "U1"]))));
    f.step(FlowInput::Done(true));
    assert!(matches!(f.step(FlowInput::Members(vec![])), FlowAction::RestrictPosting(_, ref v) if v.is_empty()));
    assert_eq!(thread_text(f.step(FlowInput::Done(true))), "Setup completed with 0 users added to whitelist");
}

#[test]
fn init_channel_refusals() {
    let mut f = InitChannel::new(c(), Some(u("U1")), u("UBOT"));
    f.step(FlowInput::Done(true));
    assert_eq!(thread_text(f.step(FlowInput::Count(1))), "This channel have already been registered");

    let mut f = InitChannel::new(c(), Some(u("U1")), u("UBOT"));
    f.step(FlowInput::Done(true));
    f.step(FlowInput::Count(0));
    assert_eq!(
        thread_text(f.step(FlowInput::Managers(Some(users(&["U1"]))))),
        "Add me <@UBOT> as a channel manager and rerun the command!"
    );

    let mut f = InitChannel::new(c(), Some(u("U1")), u("UBOT"));
    f.step(FlowInput::Done(true));
    f.step(FlowInput::Count(0));
    assert_eq!(
        thread_text(f.step(FlowInput::Managers(Some(users(&["UBOT"]))))),
        "Request failed: you are not a channel manager"
    );

    let mut f = InitChannel::new(c(), None, u("UBOT"));
    assert_eq!(thread_text(f.step(FlowInput::Done(true))), "Unable to identify sender");
}

#[test]
fn join_of_accepted_user() {
    let mut f = ChannelJoin::new(c(), u("U4"), &u("U4"), None);
    assert_eq!(f.who, "<@U4> which is self-invited");
    assert!(matches!(f.step(FlowInput::Done(true)), FlowAction::CountRegistrations(_)));
    assert!(matches!(f.step(FlowInput::Count(1)), FlowAction::FetchManagers(_)));
    assert!(matches!(f.step(FlowInput::Managers(Some(users(&["U1"])))), FlowAction::FetchAccepted(_)));
    assert!(matches!(f.step(FlowInput::Accepted(users(&["U4", "U1"]))), FlowAction::FetchAccepted(_)));
    assert!(matches!(f.step(FlowInput::Accepted(users(&["U4", "U1"]))), FlowAction::FetchMembers(_)));
    match f.step(FlowInput::Members(users(&["U1", "U7", "U4"]))) {
        FlowAction::RestrictPosting(_, v) => assert_eq!(v, users(&["U1", "U4"])),
        other => panic!("unexpected {:?}", other),
    }
    assert_eq!(channel_text(f.step(FlowInput::Done(true))), "Hi <@U4> which is self-invited, welcome to stay here!");
}

#[test]
fn join_invited_by_manager() {
    let mut f = ChannelJoin::new(c(), u("U4"), &u("U4"), Some(u("U1")));
    assert_eq!(f.who, "<@U4> which is invited by <@U1>");
    f.step(FlowInput::Done(true));
    f.step(FlowInput::Count(1));
    f.step(FlowInput::Managers(Some(users(&["U1"]))));
    assert!(matches!(f.step(FlowInput::Accepted(vec![])), FlowAction::AcceptUser(_, ref x) if x.as_str() == "U4"));
    assert!(matches!(f.step(FlowInput::Done(true)), FlowAction::FetchAccepted(_)));
}

#[test]
fn join_blocked_then_kicked() {
    let mut f = ChannelJoin::new(c(), u("U4"), &u("U4"), Some(u("U8")));
    f.step(FlowInput::Done(true));
    f.step(FlowInput::Count(1));
    f.step(FlowInput::Managers(Some(users(&["U1"]))));
    assert_eq!(
        channel_text(f.step(FlowInput::Accepted(vec![]))),
        "Hi <@U4> which is invited by <@U8>, access have been blocked as this is a restricted channel."
    );
    assert!(matches!(f.step(FlowInput::Done(true)), FlowAction::Kick(_, ref x) if x.as_str() == "U4"));
    assert!(matches!(f.step(FlowInput::Done(true)), FlowAction::Finish));
}

#[test]
fn join_kept_when_managers_unknown() {
    let mut f = ChannelJoin::new(c(), u("U4"), &u("U4"), None);
    f.step(FlowInput::Done(true));
    f.step(FlowInput::Count(1));
    f.step(FlowInput::Managers(None));
    let t = channel_text(f.step(FlowInput::Accepted(vec![])));
    assert!(t.starts_with("Hi <@U4> which is self-invited, you was kept here"));
}

#[test]
fn join_of_unregistered_channel_does_nothing() {
    let mut f = ChannelJoin::new(c(), u("U4"), &u("U4"), None);
    f.step(FlowInput::Done(true));
    assert!(matches!(f.step(FlowInput::Count(0)), FlowAction::Finish));
}

#[test]
fn intersection_keeps_member_order() {
    let r = intersect_accepted(&users(&["U3", "U1", "U2"]), &users(&["U2", "U3"]));
    assert_eq!(r, users(&["U3", "U2"]));
    assert!(intersect_accepted(&users(&[]), &users(&["U2"])).is_empty());
}
