//! The requests that the channel-management handlers make and the replies
//! they give, step by step: each handler is a state machine that is told the
//! outcome of its last request and answers with the next one.
use vstd::prelude::*;

use crate::api::user_texts;
use crate::ids::{contains_user, has_user, ChannelId, UserId};
use crate::model::copy_users;
use crate::text::{decimal, push_decimal, push_str};

verus! {

/// The outcome of the last action, as the surrounding loop reports it.
#[derive(Debug)]
pub enum FlowInput {
    /// The managers of the channel, or `None` when they could not be fetched.
    Managers(Option<Vec<UserId>>),
    /// How many management records the channel has.
    Count(u32),
    /// How many rows a deletion removed, or `None` when it failed.
    Rows(Option<u64>),
    /// The members of the channel.
    Members(Vec<UserId>),
    /// The users accepted into the channel.
    Accepted(Vec<UserId>),
    /// The action is done; whether it succeeded.
    Done(bool),
}

/// What a handler asks the surrounding loop to do next.
#[derive(Debug)]
pub enum FlowAction {
    /// Fetch the managers of the channel.
    FetchManagers(ChannelId),
    /// Count the management records of the channel.
    CountRegistrations(ChannelId),
    /// Fetch the users accepted into the channel.
    FetchAccepted(ChannelId),
    /// Fetch all members of the channel.
    FetchMembers(ChannelId),
    /// Record the channel as managed, with the full configuration.
    Register(ChannelId),
    /// Record the user as accepted into the channel (if not already).
    AcceptUser(ChannelId, UserId),
    /// Delete the record that accepts the user into the channel.
    DeleteAccepted(ChannelId, UserId),
    /// Remove the user from the channel.
    Kick(ChannelId, UserId),
    /// Let only these users post in the channel (no thread replies by
    /// others; `@channel` and `@here` allowed).
    RestrictPosting(ChannelId, Vec<UserId>),
    /// Reply in the thread of the command message.
    ReplyInThread(String),
    /// Post in the channel.
    ReplyInChannel(String),
    /// Nothing more to do.
    Finish,
}

/// The action is a thread reply with text `t`.
pub open spec fn is_thread_reply(a: FlowAction, t: Seq<char>) -> bool {
    a matches FlowAction::ReplyInThread(m) && m@ == t
}

/// The action is a channel post with text `t`.
pub open spec fn is_channel_reply(a: FlowAction, t: Seq<char>) -> bool {
    a matches FlowAction::ReplyInChannel(m) && m@ == t
}

fn text(s: &str) -> (r: String)
    ensures
        r@ == s@,
{
    let mut r = String::new();
    push_str(&mut r, s);
    r
}

/// `"true"` or `"false"`.
fn push_bool(s: &mut String, b: bool)
    ensures
        final(s)@ == old(s)@ + crate::api::bool_text(b),
{
    if b {
        push_str(s, "true");
    } else {
        push_str(s, "false");
    }
}

// ---------------------------------------------------------------------------
// Removing a user from a managed channel.
// ---------------------------------------------------------------------------

/// Where the removal of a user stands.
#[derive(Debug)]
pub enum RemoveUserState {
    Start,
    AwaitManagers(UserId),
    AwaitCount,
    AwaitDelete,
    AwaitKick(bool),
    Finished,
}

/// A command, issued by `sender` in `channel`, to remove `target` from it.
pub struct RemoveUser {
    pub channel: ChannelId,
    pub target: UserId,
    pub sender: Option<UserId>,
    pub state: RemoveUserState,
    /// The managers of the channel, once they have been fetched.
    pub managers_seen: Ghost<Option<Seq<UserId>>>,
    /// The number of management records, once it has been counted.
    pub registrations_seen: Ghost<Option<u32>>,
}

/// The report of a removal: whether the user left the channel and whether
/// their record was deleted.
pub open spec fn remove_report(slack: bool, db: bool) -> Seq<char> {
    "Remove from slack channel: "@ + crate::api::bool_text(slack) + "\nRemove from db: "@
        + crate::api::bool_text(db)
}

impl RemoveUser {
    /// The sender is a manager of the channel and the target is not, as the
    /// fetched managers show.
    pub open spec fn managers_allow(self) -> bool {
        &&& self.managers_seen@ matches Some(ms)
        &&& self.sender matches Some(s)
        &&& has_user(ms, s@)
        &&& !has_user(ms, self.target@)
    }

    /// The channel was found registered.
    pub open spec fn registered(self) -> bool {
        self.registrations_seen@ matches Some(n) && n > 0
    }

    /// What each state rests on: the managers are checked for the sender;
    /// past that check the sender is a manager and the target is not; past
    /// the count the channel is registered.
    pub open spec fn inv(self) -> bool {
        match self.state {
            RemoveUserState::AwaitManagers(x) => self.sender matches Some(s) && x@ == s@,
            RemoveUserState::AwaitCount => self.managers_allow(),
            RemoveUserState::AwaitDelete => self.managers_allow() && self.registered(),
            RemoveUserState::AwaitKick(_) => self.managers_allow() && self.registered(),
            _ => true,
        }
    }

    pub fn new(channel: ChannelId, target: UserId, sender: Option<UserId>) -> (r: RemoveUser)
        ensures
            r.channel == channel,
            r.target == target,
            r.sender == sender,
            r.state is Start,
            r.inv(),
    {
        RemoveUser {
            channel,
            target,
            sender,
            state: RemoveUserState::Start,
            managers_seen: Ghost(None),
            registrations_seen: Ghost(None),
        }
    }

    /// The next action, given the outcome of the last one.
    ///
    /// A sender is needed; then the managers; the sender must be one of them
    /// and the target must not be; the channel must be registered; then the
    /// target's record is deleted and the target is removed from the
    /// channel, and the outcome of both is reported.
    ///
    /// Whatever the inputs, the target's record is deleted and the target
    /// is removed only when the sender is a manager of the channel, the
    /// target is not, and the channel is registered.
    pub fn step(&mut self, input: FlowInput) -> (a: FlowAction)
        requires
            old(self).inv(),
        ensures
            final(self).inv(),
            (a is DeleteAccepted || a is Kick) ==> final(self).managers_allow(),
            (a is DeleteAccepted || a is Kick) ==> final(self).registered(),
            final(self).channel == old(self).channel,
            final(self).target == old(self).target,
            final(self).sender == old(self).sender,
            match old(self).state {
                RemoveUserState::Start => match old(self).sender {
                    None => {
                        &&& is_thread_reply(a, "Unable to identify sender"@)
                        &&& final(self).state is Finished
                    },
                    Some(s) => {
                        &&& a matches FlowAction::FetchManagers(c) && c@ == old(self).channel@
                        &&& final(self).state matches RemoveUserState::AwaitManagers(x) && x@ == s@
                    },
                },
                RemoveUserState::AwaitManagers(s) => match input {
                    FlowInput::Managers(None) => {
                        &&& is_thread_reply(a, "Unable to identify channel manager"@)
                        &&& final(self).state is Finished
                    },
                    FlowInput::Managers(Some(ms)) => if !has_user(ms@, s@) {
                        &&& is_thread_reply(a, "Request failed: you are not a channel manager"@)
                        &&& final(self).state is Finished
                    } else if has_user(ms@, old(self).target@) {
                        &&& is_thread_reply(
                            a,
                            "Cannot remove channel manager (for safety reason), please remove them as channel manager manually first."@,
                        )
                        &&& final(self).state is Finished
                    } else {
                        &&& a matches FlowAction::CountRegistrations(c) && c@ == old(self).channel@
                        &&& final(self).state is AwaitCount
                    },
                    _ => a is Finish && final(self).state is Finished,
                },
                RemoveUserState::AwaitCount => match input {
                    FlowInput::Count(n) => if n == 0 {
                        &&& is_thread_reply(a, "This channel have already not been registered"@)
                        &&& final(self).state is Finished
                    } else {
                        &&& a matches FlowAction::DeleteAccepted(c, u) && c@ == old(self).channel@
                            && u@ == old(self).target@
                        &&& final(self).state is AwaitDelete
                    },
                    _ => a is Finish && final(self).state is Finished,
                },
                RemoveUserState::AwaitDelete => match input {
                    FlowInput::Rows(rows) => {
                        &&& a matches FlowAction::Kick(c, u) && c@ == old(self).channel@ && u@
                            == old(self).target@
                        &&& final(self).state == RemoveUserState::AwaitKick(
                            rows matches Some(k) && k > 0,
                        )
                    },
                    _ => a is Finish && final(self).state is Finished,
                },
                RemoveUserState::AwaitKick(db) => match input {
                    FlowInput::Done(ok) => {
                        &&& is_thread_reply(a, remove_report(ok, db))
                        &&& final(self).state is Finished
                    },
                    _ => a is Finish && final(self).state is Finished,
                },
                RemoveUserState::Finished => a is Finish && final(self).state is Finished,
            },
    {
        let mut state = RemoveUserState::Finished;
        std::mem::swap(&mut state, &mut self.state);
        match state {
            RemoveUserState::Start => match &self.sender {
                None => FlowAction::ReplyInThread(text("Unable to identify sender")),
                Some(s) => {
                    self.state = RemoveUserState::AwaitManagers(s.copy());
                    FlowAction::FetchManagers(self.channel.copy())
                },
            },
            RemoveUserState::AwaitManagers(s) => match input {
                FlowInput::Managers(None) => FlowAction::ReplyInThread(
                    text("Unable to identify channel manager"),
                ),
                FlowInput::Managers(Some(ms)) => {
                    if !contains_user(&ms, &s) {
                        FlowAction::ReplyInThread(
                            text("Request failed: you are not a channel manager"),
                        )
                    } else if contains_user(&ms, &self.target) {
                        FlowAction::ReplyInThread(
                            text(
                                "Cannot remove channel manager (for safety reason), please remove them as channel manager manually first.",
                            ),
                        )
                    } else {
                        self.managers_seen = Ghost(Some(ms@));
                        self.state = RemoveUserState::AwaitCount;
                        FlowAction::CountRegistrations(self.channel.copy())
                    }
                },
                _ => FlowAction::Finish,
            },
            RemoveUserState::AwaitCount => match input {
                FlowInput::Count(n) => {
                    if n == 0 {
                        FlowAction::ReplyInThread(
                            text("This channel have already not been registered"),
                        )
                    } else {
                        self.registrations_seen = Ghost(Some(n));
                        self.state = RemoveUserState::AwaitDelete;
                        FlowAction::DeleteAccepted(self.channel.copy(), self.target.copy())
                    }
                },
                _ => FlowAction::Finish,
            },
            RemoveUserState::AwaitDelete => match input {
                FlowInput::Rows(rows) => {
                    let db = match rows {
                        Some(k) => k > 0,
                        None => false,
                    };
                    self.state = RemoveUserState::AwaitKick(db);
                    FlowAction::Kick(self.channel.copy(), self.target.copy())
                },
                _ => FlowAction::Finish,
            },
            RemoveUserState::AwaitKick(db) => match input {
                FlowInput::Done(ok) => {
                    let mut m = text("Remove from slack channel: ");
                    push_bool(&mut m, ok);
                    push_str(&mut m, "\nRemove from db: ");
                    push_bool(&mut m, db);
                    FlowAction::ReplyInThread(m)
                },
                _ => FlowAction::Finish,
            },
            RemoveUserState::Finished => FlowAction::Finish,
        }
    }
}

// ---------------------------------------------------------------------------
// Putting a channel under management.
// ---------------------------------------------------------------------------

/// Where the setup of a managed channel stands.
#[derive(Debug)]
pub enum InitChannelState {
    Start,
    AwaitCount(UserId),
    AwaitManagers(UserId),
    AwaitRegister,
    AwaitMembers,
    Accepting(Vec<UserId>, usize),
    AwaitRestrict(usize),
    Finished,
}

/// A command, issued by `sender` in `channel`, to put the channel under
/// management by the bot, whose own id is `me`.
pub struct InitChannel {
    pub channel: ChannelId,
    pub sender: Option<UserId>,
    pub me: UserId,
    pub state: InitChannelState,
    /// The managers of the channel, once they have been fetched.
    pub managers_seen: Ghost<Option<Seq<UserId>>>,
    /// The number of management records, once it has been counted.
    pub registrations_seen: Ghost<Option<u32>>,
}

/// The reply that asks for the bot to be made a manager.
pub open spec fn add_me_text(me: Seq<char>) -> Seq<char> {
    "Add me "@ + crate::ids::user_mention(me) + " as a channel manager and rerun the command!"@
}

/// The reply once the setup is done, with the number of accepted users.
pub open spec fn setup_done_text(n: nat) -> Seq<char> {
    "Setup completed with "@ + decimal(n) + " users added to whitelist"@
}

impl InitChannel {
    /// The sender and the bot are both managers of the channel, as the
    /// fetched managers show.
    pub open spec fn managers_allow(self) -> bool {
        &&& self.managers_seen@ matches Some(ms)
        &&& self.sender matches Some(s)
        &&& has_user(ms, s@)
        &&& has_user(ms, self.me@)
    }

    /// The channel was found not registered yet.
    pub open spec fn unregistered(self) -> bool {
        self.registrations_seen@ == Some(0u32)
    }

    /// What each state rests on: the checks are made for the sender; once
    /// the count is in, the channel is not registered yet; once the
    /// managers are in, the sender and the bot are among them.
    pub open spec fn inv(self) -> bool {
        match self.state {
            InitChannelState::AwaitCount(x) => self.sender matches Some(s) && x@ == s@,
            InitChannelState::AwaitManagers(x) => self.sender matches Some(s) && x@ == s@
                && self.unregistered(),
            InitChannelState::Start => true,
            InitChannelState::Finished => true,
            _ => self.unregistered() && self.managers_allow(),
        }
    }

    pub fn new(channel: ChannelId, sender: Option<UserId>, me: UserId) -> (r: InitChannel)
        ensures
            r.channel == channel,
            r.sender == sender,
            r.me == me,
            r.state is Start,
            r.inv(),
    {
        InitChannel {
            channel,
            sender,
            me,
            state: InitChannelState::Start,
            managers_seen: Ghost(None),
            registrations_seen: Ghost(None),
        }
    }

    /// Asks to accept the next of `users`, or, when all are accepted, to let
    /// only them post.
    fn accept_next(&mut self, users: Vec<UserId>, next: usize) -> (a: FlowAction)
        requires
            next <= users.len(),
        ensures
            final(self).managers_seen == old(self).managers_seen,
            final(self).registrations_seen == old(self).registrations_seen,
            final(self).channel == old(self).channel,
            final(self).sender == old(self).sender,
            final(self).me == old(self).me,
            next < users.len() ==> {
                &&& a matches FlowAction::AcceptUser(c, u) && c@ == old(self).channel@ && u@
                    == users@[next as int]@
                &&& final(self).state matches InitChannelState::Accepting(us, k) && us == users
                    && k == next + 1
            },
            next == users.len() ==> {
                &&& a matches FlowAction::RestrictPosting(c, us) && c@ == old(self).channel@
                    && us == users
                &&& final(self).state == InitChannelState::AwaitRestrict(users.len())
            },
    {
        if next < users.len() {
            let u = users[next].copy();
            self.state = InitChannelState::Accepting(users, next + 1);
            FlowAction::AcceptUser(self.channel.copy(), u)
        } else {
            self.state = InitChannelState::AwaitRestrict(users.len());
            FlowAction::RestrictPosting(self.channel.copy(), users)
        }
    }

    /// The next action, given the outcome of the last one.
    ///
    /// A sender is needed; the channel must not be registered yet; the
    /// sender and the bot must both be managers; then the channel is
    /// registered, every member is accepted, only they may post, and the
    /// number of accepted users is reported.
    ///
    /// Whatever the inputs, the channel is registered, its members accepted
    /// and its posting restricted only when it was not registered yet and
    /// both the sender and the bot are among its managers.
    pub fn step(&mut self, input: FlowInput) -> (a: FlowAction)
        requires
            old(self).inv(),
        ensures
            final(self).inv(),
            a is Register ==> final(self).managers_allow() && final(self).unregistered(),
            a is AcceptUser ==> final(self).managers_allow() && final(self).unregistered(),
            a is RestrictPosting ==> final(self).managers_allow() && final(self).unregistered(),
            final(self).channel == old(self).channel,
            final(self).sender == old(self).sender,
            final(self).me == old(self).me,
            match old(self).state {
                InitChannelState::Start => match old(self).sender {
                    None => {
                        &&& is_thread_reply(a, "Unable to identify sender"@)
                        &&& final(self).state is Finished
                    },
                    Some(s) => {
                        &&& a matches FlowAction::CountRegistrations(c) && c@ == old(self).channel@
                        &&& final(self).state matches InitChannelState::AwaitCount(x) && x@ == s@
                    },
                },
                InitChannelState::AwaitCount(s) => match input {
                    FlowInput::Count(n) => if n > 0 {
                        &&& is_thread_reply(a, "This channel have already been registered"@)
                        &&& final(self).state is Finished
                    } else {
                        &&& a matches FlowAction::FetchManagers(c) && c@ == old(self).channel@
                        &&& final(self).state matches InitChannelState::AwaitManagers(x) && x@
                            == s@
                    },
                    _ => a is Finish && final(self).state is Finished,
                },
                InitChannelState::AwaitManagers(s) => match input {
                    FlowInput::Managers(None) => {
                        &&& is_thread_reply(a, "Unable to identify channel manager"@)
                        &&& final(self).state is Finished
                    },
                    FlowInput::Managers(Some(ms)) => if !has_user(ms@, s@) {
                        &&& is_thread_reply(a, "Request failed: you are not a channel manager"@)
                        &&& final(self).state is Finished
                    } else if !has_user(ms@, old(self).me@) {
                        &&& is_thread_reply(a, add_me_text(old(self).me@))
                        &&& final(self).state is Finished
                    } else {
                        &&& a matches FlowAction::Register(c) && c@ == old(self).channel@
                        &&& final(self).state is AwaitRegister
                    },
                    _ => a is Finish && final(self).state is Finished,
                },
                InitChannelState::AwaitRegister => match input {
                    FlowInput::Done(_) => {
                        &&& a matches FlowAction::FetchMembers(c) && c@ == old(self).channel@
                        &&& final(self).state is AwaitMembers
                    },
                    _ => a is Finish && final(self).state is Finished,
                },
                InitChannelState::AwaitMembers => match input {
                    FlowInput::Members(us) => if us.len() > 0 {
                        &&& a matches FlowAction::AcceptUser(c, u) && c@ == old(self).channel@
                            && u@ == us@[0]@
                        &&& final(self).state matches InitChannelState::Accepting(v, k) && v == us
                            && k == 1
                    } else {
                        &&& a matches FlowAction::RestrictPosting(c, v) && c@ == old(self).channel@
                            && v == us
                        &&& final(self).state == InitChannelState::AwaitRestrict(0)
                    },
                    _ => a is Finish && final(self).state is Finished,
                },
                InitChannelState::Accepting(us, k) => match input {
                    FlowInput::Done(_) => if k > us.len() {
                        a is Finish && final(self).state is Finished
                    } else if k < us.len() {
                        &&& a matches FlowAction::AcceptUser(c, u) && c@ == old(self).channel@
                            && u@ == us@[k as int]@
                        &&& final(self).state matches InitChannelState::Accepting(v, j) && v == us
                            && j == k + 1
                    } else {
                        &&& a matches FlowAction::RestrictPosting(c, v) && c@ == old(self).channel@
                            && v == us
                        &&& final(self).state == InitChannelState::AwaitRestrict(us.len())
                    },
                    _ => a is Finish && final(self).state is Finished,
                },
                InitChannelState::AwaitRestrict(n) => match input {
                    FlowInput::Done(_) => {
                        &&& is_thread_reply(a, setup_done_text(n as nat))
                        &&& final(self).state is Finished
                    },
                    _ => a is Finish && final(self).state is Finished,
                },
                InitChannelState::Finished => a is Finish && final(self).state is Finished,
            },
    {
        let mut state = InitChannelState::Finished;
        std::mem::swap(&mut state, &mut self.state);
        match state {
            InitChannelState::Start => match &self.sender {
                None => FlowAction::ReplyInThread(text("Unable to identify sender")),
                Some(s) => {
                    self.state = InitChannelState::AwaitCount(s.copy());
                    FlowAction::CountRegistrations(self.channel.copy())
                },
            },
            InitChannelState::AwaitCount(s) => match input {
                FlowInput::Count(n) => {
                    if n > 0 {
                        FlowAction::ReplyInThread(text("This channel have already been registered"))
                    } else {
                        self.registrations_seen = Ghost(Some(n));
                        self.state = InitChannelState::AwaitManagers(s);
                        FlowAction::FetchManagers(self.channel.copy())
                    }
                },
                _ => FlowAction::Finish,
            },
            InitChannelState::AwaitManagers(s) => match input {
                FlowInput::Managers(None) => FlowAction::ReplyInThread(
                    text("Unable to identify channel manager"),
                ),
                FlowInput::Managers(Some(ms)) => {
                    if !contains_user(&ms, &s) {
                        FlowAction::ReplyInThread(
                            text("Request failed: you are not a channel manager"),
                        )
                    } else if !contains_user(&ms, &self.me) {
                        let mut m = text("Add me ");
                        let mention = self.me.to_slack_format();
                        push_str(&mut m, mention.as_str());
                        push_str(&mut m, " as a channel manager and rerun the command!");
                        FlowAction::ReplyInThread(m)
                    } else {
                        self.managers_seen = Ghost(Some(ms@));
                        self.state = InitChannelState::AwaitRegister;
                        FlowAction::Register(self.channel.copy())
                    }
                },
                _ => FlowAction::Finish,
            },
            InitChannelState::AwaitRegister => match input {
                FlowInput::Done(_) => {
                    self.state = InitChannelState::AwaitMembers;
                    FlowAction::FetchMembers(self.channel.copy())
                },
                _ => FlowAction::Finish,
            },
            InitChannelState::AwaitMembers => match input {
                FlowInput::Members(us) => self.accept_next(us, 0),
                _ => FlowAction::Finish,
            },
            InitChannelState::Accepting(us, k) => match input {
                FlowInput::Done(_) => {
                    if k > us.len() {
                        FlowAction::Finish
                    } else {
                        self.accept_next(us, k)
                    }
                },
                _ => FlowAction::Finish,
            },
            InitChannelState::AwaitRestrict(n) => match input {
                FlowInput::Done(_) => {
                    let mut m = text("Setup completed with ");
                    push_decimal(&mut m, n as u64);
                    push_str(&mut m, " users added to whitelist");
                    FlowAction::ReplyInThread(m)
                },
                _ => FlowAction::Finish,
            },
            InitChannelState::Finished => FlowAction::Finish,
        }
    }
}

// ---------------------------------------------------------------------------
// A user joins a managed channel.
// ---------------------------------------------------------------------------

/// How the joining user is named in the bot's posts.
pub open spec fn join_who(user: Seq<char>, inviter: Option<Seq<char>>) -> Seq<char> {
    match inviter {
        Some(i) => crate::ids::user_mention(user) + " which is invited by "@
            + crate::ids::user_mention(i),
        None => crate::ids::user_mention(user) + " which is self-invited"@,
    }
}

/// The post when the managers could not be fetched.
pub open spec fn kept_text(who: Seq<char>) -> Seq<char> {
    "Hi "@ + who
        + ", you was kept here as we failed to identify the channel manager... However, you might not be able to talk right now."@
}

/// The post when the user is turned away.
pub open spec fn blocked_text(who: Seq<char>) -> Seq<char> {
    "Hi "@ + who + ", access have been blocked as this is a restricted channel."@
}

/// The post when the user may stay.
pub open spec fn welcome_text(who: Seq<char>) -> Seq<char> {
    "Hi "@ + who + ", welcome to stay here!"@
}

/// The members, in order, that are also accepted users.
pub open spec fn keep_accepted(members: Seq<UserId>, accepted: Seq<UserId>) -> Seq<Seq<char>>
    decreases members.len(),
{
    if members.len() == 0 {
        Seq::empty()
    } else if has_user(accepted, members.last()@) {
        keep_accepted(members.drop_last(), accepted).push(members.last()@)
    } else {
        keep_accepted(members.drop_last(), accepted)
    }
}

/// The users that stay allowed to post after a join are exactly the
/// members of the channel that are accepted users, and there are no more of
/// them than members.
pub proof fn lemma_keep_accepted_exact(members: Seq<UserId>, accepted: Seq<UserId>, x: Seq<char>)
    ensures
        keep_accepted(members, accepted).contains(x) <==> (user_texts(members).contains(x)
            && has_user(accepted, x)),
        keep_accepted(members, accepted).len() <= members.len(),
    decreases members.len(),
{
    if members.len() > 0 {
        let init = members.drop_last();
        let last = members.last();
        lemma_keep_accepted_exact(init, accepted, x);
        assert(user_texts(members) =~= user_texts(init).push(last@));
        let k = keep_accepted(init, accepted);
        if has_user(accepted, last@) {
            assert(keep_accepted(members, accepted) == k.push(last@));
            if k.push(last@).contains(x) && !k.contains(x) {
                assert(x == last@) by {
                    let j = choose|j: int| 0 <= j < k.push(last@).len() && k.push(last@)[j] == x;
                    assert(j == k.len());
                }
            }
            if k.contains(x) {
                let j = choose|j: int| 0 <= j < k.len() && k[j] == x;
                assert(k.push(last@)[j] == x);
            }
            assert(k.push(last@)[k.len() as int] == last@);
        } else {
            assert(keep_accepted(members, accepted) == k);
        }
        let u = user_texts(init);
        if u.push(last@).contains(x) && !u.contains(x) {
            assert(x == last@) by {
                let j = choose|j: int| 0 <= j < u.push(last@).len() && u.push(last@)[j] == x;
                assert(j == u.len());
            }
        }
        if u.contains(x) {
            let j = choose|j: int| 0 <= j < u.len() && u[j] == x;
            assert(u.push(last@)[j] == x);
        }
        assert(u.push(last@)[u.len() as int] == last@);
    } else {
        assert(user_texts(members).len() == 0);
    }
}

/// The members that are accepted users, in the order of `members`.
pub fn intersect_accepted(members: &Vec<UserId>, accepted: &Vec<UserId>) -> (r: Vec<UserId>)
    ensures
        user_texts(r@) == keep_accepted(members@, accepted@),
{
    let mut r: Vec<UserId> = Vec::new();
    let mut i: usize = 0;
    assert(members@.take(0) =~= Seq::<UserId>::empty());
    assert(user_texts(r@) =~= Seq::empty());
    while i < members.len()
        invariant
            i <= members.len(),
            user_texts(r@) == keep_accepted(members@.take(i as int), accepted@),
        decreases members.len() - i,
    {
        let ghost t = members@.take(i + 1);
        assert(t.drop_last() =~= members@.take(i as int));
        assert(t.last() == members@[i as int]);
        if contains_user(accepted, &members[i]) {
            let u = members[i].copy();
            let ghost prev = r@;
            r.push(u);
            assert(user_texts(r@) =~= user_texts(prev).push(members@[i as int]@));
        }
        i = i + 1;
    }
    assert(members@.take(members.len() as int) =~= members@);
    r
}

/// Where the handling of a join stands.
#[derive(Debug)]
pub enum ChannelJoinState {
    Start,
    AwaitCount,
    AwaitManagers,
    AwaitAccepted(Option<Vec<UserId>>),
    AwaitAcceptDone,
    AwaitAcceptedAgain,
    AwaitMembers(Vec<UserId>),
    AwaitRestrict,
    AwaitBlockedPost,
    Finished,
}

/// `user` joined `channel`, invited by `inviter` when someone invited them;
/// `who` is how the posts name them.
pub struct ChannelJoin {
    pub channel: ChannelId,
    pub user: UserId,
    pub inviter: Option<UserId>,
    pub who: String,
    pub state: ChannelJoinState,
    /// The number of management records, once it has been counted.
    pub registrations_seen: Ghost<Option<u32>>,
    /// The managers as fetched (`None` inside when they could not be).
    pub managers_seen: Ghost<Option<Option<Seq<UserId>>>>,
    /// The accepted users as first fetched.
    pub accepted_seen: Ghost<Option<Seq<UserId>>>,
}

/// The managers that a fetch gave, as a sequence.
pub open spec fn managers_view(m: Option<Vec<UserId>>) -> Option<Seq<UserId>> {
    match m {
        Some(v) => Some(v@),
        None => None,
    }
}

impl ChannelJoin {
    /// The channel was found registered.
    pub open spec fn registered(self) -> bool {
        self.registrations_seen@ matches Some(n) && n > 0
    }

    /// The joining user was already accepted into the channel.
    pub open spec fn user_accepted(self) -> bool {
        self.accepted_seen@ matches Some(acc) && has_user(acc, self.user@)
    }

    /// Someone invited the user, and the fetched managers include them.
    pub open spec fn invited_by_manager(self) -> bool {
        &&& self.managers_seen@ matches Some(Some(ms))
        &&& self.inviter matches Some(i)
        &&& has_user(ms, i@)
    }

    /// The user may stay: already accepted, or invited by a manager.
    pub open spec fn may_stay(self) -> bool {
        self.user_accepted() || self.invited_by_manager()
    }

    /// The user is turned away: not accepted, the managers are known, and
    /// no manager invited them.
    pub open spec fn turned_away(self) -> bool {
        &&& self.accepted_seen@ matches Some(acc)
        &&& !has_user(acc, self.user@)
        &&& self.managers_seen@ matches Some(Some(ms))
        &&& !(self.inviter matches Some(i) && has_user(ms, i@))
    }

    /// What each state rests on.
    pub open spec fn inv(self) -> bool {
        match self.state {
            ChannelJoinState::Start => true,
            ChannelJoinState::AwaitCount => true,
            ChannelJoinState::AwaitManagers => self.registered(),
            ChannelJoinState::AwaitAccepted(m) => self.registered() && self.managers_seen@ == Some(
                managers_view(m),
            ),
            ChannelJoinState::AwaitAcceptDone => self.registered() && self.invited_by_manager(),
            ChannelJoinState::AwaitBlockedPost => self.registered() && self.turned_away(),
            ChannelJoinState::Finished => true,
            _ => self.registered() && self.may_stay(),
        }
    }

    /// The handling of `user`'s joining `channel`, reported by an event
    /// naming `event_user` and `inviter`.
    pub fn new(channel: ChannelId, user: UserId, event_user: &UserId, inviter: Option<UserId>) -> (r:
        ChannelJoin)
        ensures
            r.channel == channel,
            r.user == user,
            r.inviter == inviter,
            r.who@ == join_who(event_user@, crate::context::opt_view(inviter)),
            r.state is Start,
            r.inv(),
    {
        let mut who = event_user.to_slack_format();
        match &inviter {
            Some(i) => {
                push_str(&mut who, " which is invited by ");
                let m = i.to_slack_format();
                push_str(&mut who, m.as_str());
            },
            None => {
                push_str(&mut who, " which is self-invited");
            },
        }
        ChannelJoin {
            channel,
            user,
            inviter,
            who,
            state: ChannelJoinState::Start,
            registrations_seen: Ghost(None),
            managers_seen: Ghost(None),
            accepted_seen: Ghost(None),
        }
    }

    fn post(&self, before: &str, after: &str) -> (r: String)
        ensures
            r@ == before@ + self.who@ + after@,
    {
        let mut m = text(before);
        push_str(&mut m, self.who.as_str());
        push_str(&mut m, after);
        m
    }

    /// The next action, given the outcome of the last one.
    ///
    /// Nothing happens in a channel that is not registered. A user that is
    /// already accepted, or that a manager invited (who is then accepted),
    /// may stay: only the members that are accepted may then post, and the
    /// user is welcomed. Anyone else is told that access is blocked and is
    /// removed from the channel. When the managers cannot be fetched, a user
    /// who is not accepted is told so and left in the channel.
    ///
    /// Whatever the inputs, in a registered channel only: the user is
    /// accepted only when a manager invited them, the posting list is set
    /// only when the user may stay, and the user is removed only when they
    /// were not accepted, the managers were known, and no manager invited
    /// them.
    pub fn step(&mut self, input: FlowInput) -> (a: FlowAction)
        requires
            old(self).inv(),
        ensures
            final(self).inv(),
            a is AcceptUser ==> final(self).registered() && final(self).invited_by_manager(),
            a is RestrictPosting ==> final(self).registered() && final(self).may_stay(),
            a is Kick ==> final(self).registered() && final(self).turned_away(),
            final(self).channel == old(self).channel,
            final(self).user == old(self).user,
            final(self).inviter == old(self).inviter,
            final(self).who == old(self).who,
            match old(self).state {
                ChannelJoinState::Start => {
                    &&& a matches FlowAction::CountRegistrations(c) && c@ == old(self).channel@
                    &&& final(self).state is AwaitCount
                },
                ChannelJoinState::AwaitCount => match input {
                    FlowInput::Count(n) => if n == 0 {
                        a is Finish && final(self).state is Finished
                    } else {
                        &&& a matches FlowAction::FetchManagers(c) && c@ == old(self).channel@
                        &&& final(self).state is AwaitManagers
                    },
                    _ => a is Finish && final(self).state is Finished,
                },
                ChannelJoinState::AwaitManagers => match input {
                    FlowInput::Managers(m) => {
                        &&& a matches FlowAction::FetchAccepted(c) && c@ == old(self).channel@
                        &&& final(self).state == ChannelJoinState::AwaitAccepted(m)
                    },
                    _ => a is Finish && final(self).state is Finished,
                },
                ChannelJoinState::AwaitAccepted(m) => match input {
                    FlowInput::Accepted(acc) => if has_user(acc@, old(self).user@) {
                        &&& a matches FlowAction::FetchAccepted(c) && c@ == old(self).channel@
                        &&& final(self).state is AwaitAcceptedAgain
                    } else {
                        match m {
                            None => {
                                &&& is_channel_reply(a, kept_text(old(self).who@))
                                &&& final(self).state is Finished
                            },
                            Some(ms) => if old(self).inviter matches Some(i) && has_user(
                                ms@,
                                i@,
                            ) {
                                &&& a matches FlowAction::AcceptUser(c, u) && c@ == old(self).channel@ && u@ == old(self).user@
                                &&& final(self).state is AwaitAcceptDone
                            } else {
                                &&& is_channel_reply(a, blocked_text(old(self).who@))
                                &&& final(self).state is AwaitBlockedPost
                            },
                        }
                    },
                    _ => a is Finish && final(self).state is Finished,
                },
                ChannelJoinState::AwaitAcceptDone => match input {
                    FlowInput::Done(_) => {
                        &&& a matches FlowAction::FetchAccepted(c) && c@ == old(self).channel@
                        &&& final(self).state is AwaitAcceptedAgain
                    },
                    _ => a is Finish && final(self).state is Finished,
                },
                ChannelJoinState::AwaitAcceptedAgain => match input {
                    FlowInput::Accepted(acc) => {
                        &&& a matches FlowAction::FetchMembers(c) && c@ == old(self).channel@
                        &&& final(self).state == ChannelJoinState::AwaitMembers(acc)
                    },
                    _ => a is Finish && final(self).state is Finished,
                },
                ChannelJoinState::AwaitMembers(acc) => match input {
                    FlowInput::Members(ms) => {
                        &&& a matches FlowAction::RestrictPosting(c, us) && c@ == old(self).channel@ && user_texts(us@) == keep_accepted(ms@, acc@)
                        &&& final(self).state is AwaitRestrict
                    },
                    _ => a is Finish && final(self).state is Finished,
                },
                ChannelJoinState::AwaitRestrict => match input {
                    FlowInput::Done(_) => {
                        &&& is_channel_reply(a, welcome_text(old(self).who@))
                        &&& final(self).state is Finished
                    },
                    _ => a is Finish && final(self).state is Finished,
                },
                ChannelJoinState::AwaitBlockedPost => match input {
                    FlowInput::Done(_) => {
                        &&& a matches FlowAction::Kick(c, u) && c@ == old(self).channel@ && u@
                            == old(self).user@
                        &&& final(self).state is Finished
                    },
                    _ => a is Finish && final(self).state is Finished,
                },
                ChannelJoinState::Finished => a is Finish && final(self).state is Finished,
            },
    {
        let mut state = ChannelJoinState::Finished;
        std::mem::swap(&mut state, &mut self.state);
        match state {
            ChannelJoinState::Start => {
                self.state = ChannelJoinState::AwaitCount;
                FlowAction::CountRegistrations(self.channel.copy())
            },
            ChannelJoinState::AwaitCount => match input {
                FlowInput::Count(n) => {
                    if n == 0 {
                        FlowAction::Finish
                    } else {
                        self.registrations_seen = Ghost(Some(n));
                        self.state = ChannelJoinState::AwaitManagers;
                        FlowAction::FetchManagers(self.channel.copy())
                    }
                },
                _ => FlowAction::Finish,
            },
            ChannelJoinState::AwaitManagers => match input {
                FlowInput::Managers(m) => {
                    self.managers_seen = Ghost(Some(managers_view(m)));
                    self.state = ChannelJoinState::AwaitAccepted(m);
                    FlowAction::FetchAccepted(self.channel.copy())
                },
                _ => FlowAction::Finish,
            },
            ChannelJoinState::AwaitAccepted(m) => match input {
                FlowInput::Accepted(acc) => {
                    self.accepted_seen = Ghost(Some(acc@));
                    if contains_user(&acc, &self.user) {
                        self.state = ChannelJoinState::AwaitAcceptedAgain;
                        FlowAction::FetchAccepted(self.channel.copy())
                    } else {
                        match m {
                            None => FlowAction::ReplyInChannel(
                                self.post(
                                    "Hi ",
                                    ", you was kept here as we failed to identify the channel manager... However, you might not be able to talk right now.",
                                ),
                            ),
                            Some(ms) => {
                                let invited_by_manager = match &self.inviter {
                                    Some(i) => contains_user(&ms, i),
                                    None => false,
                                };
                                if invited_by_manager {
                                    self.state = ChannelJoinState::AwaitAcceptDone;
                                    FlowAction::AcceptUser(self.channel.copy(), self.user.copy())
                                } else {
                                    self.state = ChannelJoinState::AwaitBlockedPost;
                                    FlowAction::ReplyInChannel(
                                        self.post(
                                            "Hi ",
                                            ", access have been blocked as this is a restricted channel.",
                                        ),
                                    )
                                }
                            },
                        }
                    }
                },
                _ => FlowAction::Finish,
            },
            ChannelJoinState::AwaitAcceptDone => match input {
                FlowInput::Done(_) => {
                    self.state = ChannelJoinState::AwaitAcceptedAgain;
                    FlowAction::FetchAccepted(self.channel.copy())
                },
                _ => FlowAction::Finish,
            },
            ChannelJoinState::AwaitAcceptedAgain => match input {
                FlowInput::Accepted(acc) => {
                    self.state = ChannelJoinState::AwaitMembers(acc);
                    FlowAction::FetchMembers(self.channel.copy())
                },
                _ => FlowAction::Finish,
            },
            ChannelJoinState::AwaitMembers(acc) => match input {
                FlowInput::Members(ms) => {
                    let keep = intersect_accepted(&ms, &acc);
                    self.state = ChannelJoinState::AwaitRestrict;
                    FlowAction::RestrictPosting(self.channel.copy(), keep)
                },
                _ => FlowAction::Finish,
            },
            ChannelJoinState::AwaitRestrict => match input {
                FlowInput::Done(_) => FlowAction::ReplyInChannel(
                    self.post("Hi ", ", welcome to stay here!"),
                ),
                _ => FlowAction::Finish,
            },
            ChannelJoinState::AwaitBlockedPost => match input {
                FlowInput::Done(_) => FlowAction::Kick(self.channel.copy(), self.user.copy()),
                _ => FlowAction::Finish,
            },
            ChannelJoinState::Finished => FlowAction::Finish,
        }
    }
}

/// The report of a removal tells the two outcomes apart: it starts with
/// whether the user left the channel and ends with whether their record was
/// deleted, each as given, whatever the other one was.
pub proof fn lemma_remove_report_parts(slack: bool, db: bool)
    ensures
        (if slack {
            "Remove from slack channel: true"@
        } else {
            "Remove from slack channel: false"@
        }).is_prefix_of(remove_report(slack, db)),
        (if db {
            "\nRemove from db: true"@
        } else {
            "\nRemove from db: false"@
        }).is_suffix_of(remove_report(slack, db)),
{
    reveal_strlit("Remove from slack channel: ");
    reveal_strlit("\nRemove from db: ");
    reveal_strlit("true");
    reveal_strlit("false");
    reveal_strlit("Remove from slack channel: true");
    reveal_strlit("Remove from slack channel: false");
    reveal_strlit("\nRemove from db: true");
    reveal_strlit("\nRemove from db: false");
    let a = "Remove from slack channel: "@;
    let b = "\nRemove from db: "@;
    let s = crate::api::bool_text(slack);
    let d = crate::api::bool_text(db);
    assert(remove_report(slack, db) == a + s + b + d);
    let head = if slack {
        "Remove from slack channel: true"@
    } else {
        "Remove from slack channel: false"@
    };
    let tail = if db {
        "\nRemove from db: true"@
    } else {
        "\nRemove from db: false"@
    };
    assert(a + s =~= head);
    assert(b + d =~= tail);
    assert(head =~= remove_report(slack, db).subrange(0, head.len() as int));
    assert(tail =~= remove_report(slack, db).subrange(
        remove_report(slack, db).len() - tail.len(),
        remove_report(slack, db).len() as int,
    ));
}

} // verus!
