//! Events of the real-time connection and of the command layer, their
//! metadata, and how a handler picks the events it takes.
use vstd::prelude::*;

use crate::cmd::CmdEvent;
use crate::context::{no_multi, opt_view, Multi, MultiView, ToMulti};
use crate::ids::{copy_opt_ts, ChannelId, Ts, UserId};

verus! {

/// Someone is typing in a channel.
#[derive(Clone, Debug)]
pub struct WebsocketUserTypingEvent {
    pub channel_id: ChannelId,
    pub thread_ts: Option<Ts>,
    pub id: Option<usize>,
    pub user_id: UserId,
}

/// The server names the URL to use when the connection is opened again.
#[derive(Clone, Debug)]
pub struct WebsocketReconnectUrlEvent {
    pub url: String,
}

/// The tag of a message posted by a bot.
#[derive(Clone, Copy, Debug, PartialEq, Eq)]
pub enum BotMessageTag {
    BotMessage,
}

/// The profile of the bot that posted a message.
#[derive(Clone, Debug)]
pub struct BotProfile {
    pub id: String,
    pub deleted: bool,
    pub name: String,
    pub updated: i64,
    pub app_id: String,
    pub team_id: String,
    pub icons: Option<Vec<(String, String)>>,
}

/// Present on a message that a bot posted.
#[derive(Clone, Debug)]
pub struct WebsocketMessageReceivedBotMetadata {
    pub subtype: BotMessageTag,
    pub bot_id: String,
    pub bot_profile: BotProfile,
}

/// A message was posted.
#[derive(Clone, Debug)]
pub struct WebsocketMessageReceivedEvent {
    pub bot: Option<WebsocketMessageReceivedBotMetadata>,
    pub channel_id: ChannelId,
    pub text: Option<String>,
    pub user_id: UserId,
    pub client_msg_id: Option<String>,
    pub team_id: String,
    pub source_team_id: String,
    pub user_team_id: String,
    pub suppress_notification: bool,
    pub event_ts: String,
    pub ts: Ts,
    pub thread_ts: Option<Ts>,
    pub is_ephemeral: bool,
}

/// The kinds of message event.
#[derive(Clone, Debug)]
pub enum WebsocketMessageEvent {
    Incoming(WebsocketMessageReceivedEvent),
}

/// A custom emoji was added, removed or renamed.
#[derive(Clone, Debug)]
pub enum WebsocketEmojiChangedEvent {
    Add { name: String, value: String, event_ts: Ts },
    Remove { names: Vec<String>, event_ts: Ts },
    Rename { old_name: String, new_name: String, value: String, event_ts: Ts },
}

/// A user joined a channel, invited by `inviter` when someone invited them.
#[derive(Clone, Debug)]
pub struct WebsocketChannelMemberJoinEvent {
    pub user: UserId,
    pub channel: ChannelId,
    pub channel_type: String,
    pub team: String,
    pub inviter: Option<UserId>,
    pub enterprise: Option<String>,
    pub event_ts: Ts,
    pub ts: Ts,
}

/// A user left a channel.
#[derive(Clone, Debug)]
pub struct WebsocketChannelMemberLeaveEvent {
    pub user: UserId,
    pub channel: ChannelId,
    pub channel_type: String,
    pub team: String,
    pub event_ts: Ts,
    pub ts: Ts,
}

/// An event of the real-time connection.
#[derive(Clone, Debug)]
pub enum WebsocketEvent {
    Typing(WebsocketUserTypingEvent),
    ReconnectUrl(WebsocketReconnectUrlEvent),
    Message(WebsocketMessageEvent),
    Emoji(WebsocketEmojiChangedEvent),
    ChannelMemberJoin(WebsocketChannelMemberJoinEvent),
    ChannelMemberLeft(WebsocketChannelMemberLeaveEvent),
}

/// Any event that handlers are dispatched on.
#[derive(Clone, Debug)]
pub enum Event {
    Websocket(WebsocketEvent),
    Cmd(CmdEvent),
}

impl WebsocketEvent {
    /// The event as a dispatchable `Event`.
    pub fn into_event(self) -> (r: Event)
        ensures
            r == Event::Websocket(self),
    {
        Event::Websocket(self)
    }
}

/// The metadata of a join or leave: the channel and the user.
pub open spec fn member_multi(channel: ChannelId, user: UserId) -> MultiView {
    MultiView { channel_id: Some(channel@), user_id: Some(user@), ..no_multi() }
}

impl ToMulti for WebsocketUserTypingEvent {
    /// A typing event names its channel, thread and user.
    open spec fn spec_multi(&self) -> MultiView {
        MultiView {
            channel_id: Some(self.channel_id@),
            message_ts: None,
            thread_ts: opt_view(self.thread_ts),
            user_id: Some(self.user_id@),
        }
    }

    fn get_multi(&self) -> (r: Multi) {
        Multi {
            channel_id: Some(self.channel_id.copy()),
            message_ts: None,
            thread_ts: copy_opt_ts(&self.thread_ts),
            user_id: Some(self.user_id.copy()),
        }
    }
}

impl ToMulti for WebsocketMessageReceivedEvent {
    /// A message names its channel, thread, timestamp and author.
    open spec fn spec_multi(&self) -> MultiView {
        MultiView {
            channel_id: Some(self.channel_id@),
            message_ts: Some(self.ts@),
            thread_ts: opt_view(self.thread_ts),
            user_id: Some(self.user_id@),
        }
    }

    fn get_multi(&self) -> (r: Multi) {
        Multi {
            channel_id: Some(self.channel_id.copy()),
            message_ts: Some(self.ts.copy()),
            thread_ts: copy_opt_ts(&self.thread_ts),
            user_id: Some(self.user_id.copy()),
        }
    }
}

impl ToMulti for WebsocketChannelMemberJoinEvent {
    open spec fn spec_multi(&self) -> MultiView {
        member_multi(self.channel, self.user)
    }

    fn get_multi(&self) -> (r: Multi) {
        Multi {
            channel_id: Some(self.channel.copy()),
            message_ts: None,
            thread_ts: None,
            user_id: Some(self.user.copy()),
        }
    }
}

impl ToMulti for WebsocketChannelMemberLeaveEvent {
    open spec fn spec_multi(&self) -> MultiView {
        member_multi(self.channel, self.user)
    }

    fn get_multi(&self) -> (r: Multi) {
        Multi {
            channel_id: Some(self.channel.copy()),
            message_ts: None,
            thread_ts: None,
            user_id: Some(self.user.copy()),
        }
    }
}

impl ToMulti for WebsocketReconnectUrlEvent {
    /// A reconnection notice names nothing.
    open spec fn spec_multi(&self) -> MultiView {
        no_multi()
    }

    fn get_multi(&self) -> (r: Multi) {
        Multi::empty()
    }
}

impl ToMulti for WebsocketEmojiChangedEvent {
    /// An emoji change names nothing.
    open spec fn spec_multi(&self) -> MultiView {
        no_multi()
    }

    fn get_multi(&self) -> (r: Multi) {
        Multi::empty()
    }
}

impl ToMulti for WebsocketMessageEvent {
    open spec fn spec_multi(&self) -> MultiView {
        match *self {
            WebsocketMessageEvent::Incoming(e) => e.spec_multi(),
        }
    }

    fn get_multi(&self) -> (r: Multi) {
        match self {
            WebsocketMessageEvent::Incoming(e) => e.get_multi(),
        }
    }
}

impl ToMulti for WebsocketEvent {
    /// What the event inside names.
    open spec fn spec_multi(&self) -> MultiView {
        match *self {
            WebsocketEvent::Typing(e) => e.spec_multi(),
            WebsocketEvent::ReconnectUrl(e) => e.spec_multi(),
            WebsocketEvent::Message(e) => e.spec_multi(),
            WebsocketEvent::Emoji(e) => e.spec_multi(),
            WebsocketEvent::ChannelMemberJoin(e) => e.spec_multi(),
            WebsocketEvent::ChannelMemberLeft(e) => e.spec_multi(),
        }
    }

    fn get_multi(&self) -> (r: Multi) {
        match self {
            WebsocketEvent::Typing(e) => e.get_multi(),
            WebsocketEvent::ReconnectUrl(e) => e.get_multi(),
            WebsocketEvent::Message(e) => e.get_multi(),
            WebsocketEvent::Emoji(e) => e.get_multi(),
            WebsocketEvent::ChannelMemberJoin(e) => e.get_multi(),
            WebsocketEvent::ChannelMemberLeft(e) => e.get_multi(),
        }
    }
}

impl ToMulti for Event {
    /// What the event inside names.
    open spec fn spec_multi(&self) -> MultiView {
        match *self {
            Event::Websocket(w) => w.spec_multi(),
            Event::Cmd(c) => c.spec_multi(),
        }
    }

    fn get_multi(&self) -> (r: Multi) {
        match self {
            Event::Websocket(e) => e.get_multi(),
            Event::Cmd(e) => e.get_multi(),
        }
    }
}

/// An event type that a handler can take: it picks its events out of all
/// events.
pub trait FromEvent: Sized {
    /// How the value that `from_event` returns relates to the event.
    spec fn from_event_rel(event: Event, r: Option<Self>) -> bool;

    fn from_event(event: Event) -> (r: Option<Self>)
        ensures
            Self::from_event_rel(event, r),
    ;
}

impl FromEvent for Event {
    /// Every event.
    open spec fn from_event_rel(event: Event, r: Option<Event>) -> bool {
        r == Some(event)
    }

    fn from_event(event: Event) -> (r: Option<Event>) {
        Some(event)
    }
}

impl FromEvent for WebsocketEvent {
    /// The real-time events.
    open spec fn from_event_rel(event: Event, r: Option<WebsocketEvent>) -> bool {
        r == match event {
            Event::Websocket(w) => Some(w),
            _ => None,
        }
    }

    fn from_event(event: Event) -> (r: Option<WebsocketEvent>) {
        match event {
            Event::Websocket(w) => Some(w),
            _ => None,
        }
    }
}

impl FromEvent for CmdEvent {
    /// The commands.
    open spec fn from_event_rel(event: Event, r: Option<CmdEvent>) -> bool {
        r == match event {
            Event::Cmd(c) => Some(c),
            _ => None,
        }
    }

    fn from_event(event: Event) -> (r: Option<CmdEvent>) {
        match event {
            Event::Cmd(c) => Some(c),
            _ => None,
        }
    }
}

impl FromEvent for WebsocketMessageEvent {
    open spec fn from_event_rel(event: Event, r: Option<WebsocketMessageEvent>) -> bool {
        r == match event {
            Event::Websocket(WebsocketEvent::Message(m)) => Some(m),
            _ => None,
        }
    }

    fn from_event(event: Event) -> (r: Option<WebsocketMessageEvent>) {
        match event {
            Event::Websocket(WebsocketEvent::Message(m)) => Some(m),
            _ => None,
        }
    }
}

impl FromEvent for WebsocketMessageReceivedEvent {
    open spec fn from_event_rel(event: Event, r: Option<WebsocketMessageReceivedEvent>) -> bool {
        r == match event {
            Event::Websocket(WebsocketEvent::Message(WebsocketMessageEvent::Incoming(m))) => Some(
                m,
            ),
            _ => None,
        }
    }

    fn from_event(event: Event) -> (r: Option<WebsocketMessageReceivedEvent>) {
        match event {
            Event::Websocket(WebsocketEvent::Message(WebsocketMessageEvent::Incoming(m))) => Some(
                m,
            ),
            _ => None,
        }
    }
}

impl FromEvent for WebsocketUserTypingEvent {
    open spec fn from_event_rel(event: Event, r: Option<WebsocketUserTypingEvent>) -> bool {
        r == match event {
            Event::Websocket(WebsocketEvent::Typing(t)) => Some(t),
            _ => None,
        }
    }

    fn from_event(event: Event) -> (r: Option<WebsocketUserTypingEvent>) {
        match event {
            Event::Websocket(WebsocketEvent::Typing(t)) => Some(t),
            _ => None,
        }
    }
}

impl FromEvent for WebsocketReconnectUrlEvent {
    open spec fn from_event_rel(event: Event, r: Option<WebsocketReconnectUrlEvent>) -> bool {
        r == match event {
            Event::Websocket(WebsocketEvent::ReconnectUrl(u)) => Some(u),
            _ => None,
        }
    }

    fn from_event(event: Event) -> (r: Option<WebsocketReconnectUrlEvent>) {
        match event {
            Event::Websocket(WebsocketEvent::ReconnectUrl(u)) => Some(u),
            _ => None,
        }
    }
}

impl FromEvent for WebsocketEmojiChangedEvent {
    open spec fn from_event_rel(event: Event, r: Option<WebsocketEmojiChangedEvent>) -> bool {
        r == match event {
            Event::Websocket(WebsocketEvent::Emoji(e)) => Some(e),
            _ => None,
        }
    }

    fn from_event(event: Event) -> (r: Option<WebsocketEmojiChangedEvent>) {
        match event {
            Event::Websocket(WebsocketEvent::Emoji(e)) => Some(e),
            _ => None,
        }
    }
}

impl FromEvent for WebsocketChannelMemberJoinEvent {
    open spec fn from_event_rel(event: Event, r: Option<WebsocketChannelMemberJoinEvent>) -> bool {
        r == match event {
            Event::Websocket(WebsocketEvent::ChannelMemberJoin(j)) => Some(j),
            _ => None,
        }
    }

    fn from_event(event: Event) -> (r: Option<WebsocketChannelMemberJoinEvent>) {
        match event {
            Event::Websocket(WebsocketEvent::ChannelMemberJoin(j)) => Some(j),
            _ => None,
        }
    }
}

impl FromEvent for WebsocketChannelMemberLeaveEvent {
    open spec fn from_event_rel(event: Event, r: Option<WebsocketChannelMemberLeaveEvent>) -> bool {
        r == match event {
            Event::Websocket(WebsocketEvent::ChannelMemberLeft(l)) => Some(l),
            _ => None,
        }
    }

    fn from_event(event: Event) -> (r: Option<WebsocketChannelMemberLeaveEvent>) {
        match event {
            Event::Websocket(WebsocketEvent::ChannelMemberLeft(l)) => Some(l),
            _ => None,
        }
    }
}

/// Every incoming message is handed to message handlers as it is, whether
/// or not it sits in a thread: selecting it gives exactly that message and
/// nothing else.
pub proof fn lemma_messages_selected_whole(m: WebsocketMessageReceivedEvent, r: Option<WebsocketMessageReceivedEvent>)
    ensures
        <WebsocketMessageReceivedEvent as FromEvent>::from_event_rel(
            Event::Websocket(WebsocketEvent::Message(WebsocketMessageEvent::Incoming(m))),
            r,
        ) <==> r == Some(m),
        <WebsocketMessageReceivedEvent as FromEvent>::from_event_rel(
            Event::Websocket(WebsocketEvent::Message(WebsocketMessageEvent::Incoming(m))),
            r,
        ) ==> r.unwrap().thread_ts == m.thread_ts && r.unwrap().text == m.text,
{
}

/// A join event is handed to join handlers unchanged: selecting it gives
/// exactly that event, with the same user, channel and inviter.
pub proof fn lemma_joins_selected_whole(j: WebsocketChannelMemberJoinEvent, r: Option<WebsocketChannelMemberJoinEvent>)
    ensures
        <WebsocketChannelMemberJoinEvent as FromEvent>::from_event_rel(
            Event::Websocket(WebsocketEvent::ChannelMemberJoin(j)),
            r,
        ) <==> r == Some(j),
        <WebsocketChannelMemberJoinEvent as FromEvent>::from_event_rel(
            Event::Websocket(WebsocketEvent::ChannelMemberJoin(j)),
            r,
        ) ==> r.unwrap().inviter == j.inviter && r.unwrap().user == j.user && r.unwrap().channel
            == j.channel,
{
}

} // verus!
