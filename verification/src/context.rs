//! Where an event happened (channel, thread, message, user) and the context
//! items that handlers take from it.
use vstd::prelude::*;

use crate::ids::{copy_opt_channel, copy_opt_ts, copy_opt_user, ChannelId, Ts, UserId};

verus! {

/// The view of an optional value.
pub open spec fn opt_view<T: View>(o: Option<T>) -> Option<T::V> {
    match o {
        Some(x) => Some(x@),
        None => None,
    }
}

/// The metadata of an event: which of channel, message, thread and user it
/// names.
#[derive(Clone, Debug)]
pub struct Multi {
    pub channel_id: Option<ChannelId>,
    pub message_ts: Option<Ts>,
    pub thread_ts: Option<Ts>,
    pub user_id: Option<UserId>,
}

/// The view of `Multi` and of `Context`: the four optional identifiers.
pub struct MultiView {
    pub channel_id: Option<Seq<char>>,
    pub message_ts: Option<Seq<char>>,
    pub thread_ts: Option<Seq<char>>,
    pub user_id: Option<Seq<char>>,
}

impl View for Multi {
    type V = MultiView;

    open spec fn view(&self) -> MultiView {
        MultiView {
            channel_id: opt_view(self.channel_id),
            message_ts: opt_view(self.message_ts),
            thread_ts: opt_view(self.thread_ts),
            user_id: opt_view(self.user_id),
        }
    }
}

impl Multi {
    /// Metadata that names nothing.
    pub fn empty() -> (r: Multi)
        ensures
            r@ == no_multi(),
    {
        Multi { channel_id: None, message_ts: None, thread_ts: None, user_id: None }
    }
}

/// Metadata that names nothing.
pub open spec fn no_multi() -> MultiView {
    MultiView { channel_id: None, message_ts: None, thread_ts: None, user_id: None }
}

/// Something that names where it happened: which of channel, message,
/// thread and user it belongs to.
pub trait ToMulti: Sized {
    /// The identifiers that the value names.
    spec fn spec_multi(&self) -> MultiView;

    fn get_multi(&self) -> (r: Multi)
        ensures
            r@ == self.spec_multi(),
    ;
}

impl ToMulti for Multi {
    open spec fn spec_multi(&self) -> MultiView {
        self@
    }

    fn get_multi(&self) -> (r: Multi) {
        Multi {
            channel_id: copy_opt_channel(&self.channel_id),
            message_ts: copy_opt_ts(&self.message_ts),
            thread_ts: copy_opt_ts(&self.thread_ts),
            user_id: copy_opt_user(&self.user_id),
        }
    }
}

impl ToMulti for Ts {
    /// A timestamp names a message.
    open spec fn spec_multi(&self) -> MultiView {
        MultiView { message_ts: Some(self@), ..no_multi() }
    }

    fn get_multi(&self) -> (r: Multi) {
        Multi { channel_id: None, message_ts: Some(self.copy()), thread_ts: None, user_id: None }
    }
}

impl ToMulti for ChannelId {
    /// A channel id names a channel.
    open spec fn spec_multi(&self) -> MultiView {
        MultiView { channel_id: Some(self@), ..no_multi() }
    }

    fn get_multi(&self) -> (r: Multi) {
        Multi { channel_id: Some(self.copy()), message_ts: None, thread_ts: None, user_id: None }
    }
}

impl ToMulti for UserId {
    /// A user id names a user.
    open spec fn spec_multi(&self) -> MultiView {
        MultiView { user_id: Some(self@), ..no_multi() }
    }

    fn get_multi(&self) -> (r: Multi) {
        Multi { channel_id: None, message_ts: None, thread_ts: None, user_id: Some(self.copy()) }
    }
}

/// The channel that a value names, if any.
pub trait ToChannelId {
    spec fn spec_channel_id(&self) -> Option<Seq<char>>;

    fn get_channel_id(&self) -> (r: Option<ChannelId>)
        ensures
            opt_view(r) == self.spec_channel_id(),
    ;
}

impl<T: ToMulti> ToChannelId for T {
    open spec fn spec_channel_id(&self) -> Option<Seq<char>> {
        self.spec_multi().channel_id
    }

    fn get_channel_id(&self) -> (r: Option<ChannelId>) {
        self.get_multi().channel_id
    }
}

/// The thread that a value names, if any.
pub trait ToThreadTs {
    spec fn spec_thread_ts(&self) -> Option<Seq<char>>;

    fn get_thread_ts(&self) -> (r: Option<Ts>)
        ensures
            opt_view(r) == self.spec_thread_ts(),
    ;
}

impl<T: ToMulti> ToThreadTs for T {
    open spec fn spec_thread_ts(&self) -> Option<Seq<char>> {
        self.spec_multi().thread_ts
    }

    fn get_thread_ts(&self) -> (r: Option<Ts>) {
        self.get_multi().thread_ts
    }
}

/// The message that a value names, if any.
pub trait ToMessageTs {
    spec fn spec_ts(&self) -> Option<Seq<char>>;

    fn get_ts(&self) -> (r: Option<Ts>)
        ensures
            opt_view(r) == self.spec_ts(),
    ;
}

impl<T: ToMulti> ToMessageTs for T {
    open spec fn spec_ts(&self) -> Option<Seq<char>> {
        self.spec_multi().message_ts
    }

    fn get_ts(&self) -> (r: Option<Ts>) {
        self.get_multi().message_ts
    }
}

/// The user that a value names, if any.
pub trait ToUserId {
    spec fn spec_user_id(&self) -> Option<Seq<char>>;

    fn get_user_id(&self) -> (r: Option<UserId>)
        ensures
            opt_view(r) == self.spec_user_id(),
    ;
}

impl<T: ToMulti> ToUserId for T {
    open spec fn spec_user_id(&self) -> Option<Seq<char>> {
        self.spec_multi().user_id
    }

    fn get_user_id(&self) -> (r: Option<UserId>) {
        self.get_multi().user_id
    }
}

/// What a handler learns of where its event happened.
#[derive(Clone, Debug)]
pub struct Context {
    pub channel_id: Option<ChannelId>,
    pub thread_ts: Option<Ts>,
    pub message_ts: Option<Ts>,
    pub user_id: Option<UserId>,
}

impl View for Context {
    type V = MultiView;

    open spec fn view(&self) -> MultiView {
        MultiView {
            channel_id: opt_view(self.channel_id),
            message_ts: opt_view(self.message_ts),
            thread_ts: opt_view(self.thread_ts),
            user_id: opt_view(self.user_id),
        }
    }
}

/// The context of something that names where it happened: the channel,
/// thread, message and user it names.
pub fn multi_to_ctx<M: ToMulti>(multi: &M) -> (r: Context)
    ensures
        r@ == multi.spec_multi(),
{
    Context {
        channel_id: multi.get_channel_id(),
        thread_ts: multi.get_thread_ts(),
        message_ts: multi.get_ts(),
        user_id: multi.get_user_id(),
    }
}

impl Context {
    /// The context of `item`.
    pub fn from<M: ToMulti>(item: &M) -> (r: Context)
        ensures
            r@ == item.spec_multi(),
    {
        multi_to_ctx(item)
    }

    /// A copy of this context.
    pub fn copy(&self) -> (r: Context)
        ensures
            r == *self,
    {
        Context {
            channel_id: copy_opt_channel(&self.channel_id),
            thread_ts: copy_opt_ts(&self.thread_ts),
            message_ts: copy_opt_ts(&self.message_ts),
            user_id: copy_opt_user(&self.user_id),
        }
    }
}

/// The application state, as handed to a handler.
#[derive(Clone, Debug)]
pub enum State<T> {
    State(T),
}

/// Marker for types that can be shared between tasks: every type that can
/// be sent, shared, cloned and printed.
pub trait AsyncSafe: Send + Sync + Clone + std::fmt::Debug + 'static {}

impl<T: Send + Sync + Clone + std::fmt::Debug + 'static> AsyncSafe for T {}

/// Marker for the application state once it sits behind a shared lock.
pub trait StateMarker: AsyncSafe {}

/// Marker for the application state before it is put behind a lock.
pub trait StateUnwrappedMarker: Send + Sync + std::fmt::Debug + 'static {}

impl<T: StateMarker> StateUnwrappedMarker for T {}

/// std's `Mutex`, named so that state behind it can be marked; nothing is
/// read from inside it here.
#[verifier::external_type_specification]
#[verifier::external_body]
#[verifier::reject_recursive_types(T)]
pub struct ExStdMutex<T: ?Sized>(std::sync::Mutex<T>);

/// std's `RwLock`, named so that state behind it can be marked; nothing is
/// read from inside it here.
#[verifier::external_type_specification]
#[verifier::external_body]
#[verifier::reject_recursive_types(T)]
pub struct ExStdRwLock<T: ?Sized>(std::sync::RwLock<T>);

impl<T: StateUnwrappedMarker> StateMarker for std::sync::Arc<std::sync::Mutex<T>> {}

impl<T: StateUnwrappedMarker> StateMarker for std::sync::Arc<std::sync::RwLock<T>> {}

/// Something a message can be sent to: a channel, and the message it
/// answers (with its thread, when it is in one).
#[derive(Clone, Debug)]
pub struct Messageable {
    pub channel_id: ChannelId,
    pub thread_ts: Option<Ts>,
    pub message_ts: Ts,
}

/// A handler argument taken from the context of its event; `None` when the
/// context lacks what it needs, and the handler is then not run.
pub trait FromContext: Sized {
    /// How the value relates to the context.
    spec fn from_ctx_rel(ctx: Context, r: Option<Self>) -> bool;

    fn from_ctx(ctx: &Context) -> (r: Option<Self>)
        ensures
            Self::from_ctx_rel(*ctx, r),
    ;
}

impl FromContext for Context {
    /// The context itself.
    open spec fn from_ctx_rel(ctx: Context, r: Option<Context>) -> bool {
        r == Some(ctx)
    }

    fn from_ctx(ctx: &Context) -> (r: Option<Context>) {
        Some(ctx.copy())
    }
}

impl<T: FromContext> FromContext for Option<T> {
    /// An optional argument never keeps the handler from running.
    open spec fn from_ctx_rel(ctx: Context, r: Option<Option<T>>) -> bool {
        r matches Some(x) && T::from_ctx_rel(ctx, x)
    }

    fn from_ctx(ctx: &Context) -> (r: Option<Option<T>>) {
        Some(T::from_ctx(ctx))
    }
}

impl FromContext for Messageable {
    /// Present when the context names both a channel and a message.
    open spec fn from_ctx_rel(ctx: Context, r: Option<Messageable>) -> bool {
        r == match (ctx.channel_id, ctx.message_ts) {
            (Some(channel_id), Some(message_ts)) => Some(
                Messageable { channel_id, thread_ts: ctx.thread_ts, message_ts },
            ),
            _ => None,
        }
    }

    fn from_ctx(ctx: &Context) -> (r: Option<Messageable>) {
        match (&ctx.channel_id, &ctx.message_ts) {
            (Some(channel_id), Some(message_ts)) => Some(
                Messageable {
                    channel_id: channel_id.copy(),
                    thread_ts: copy_opt_ts(&ctx.thread_ts),
                    message_ts: message_ts.copy(),
                },
            ),
            _ => None,
        }
    }
}

impl Messageable {
    /// Where `reply` posts: this channel, in this message's thread if it is
    /// in one.
    pub fn reply_target(&self) -> (r: (ChannelId, Option<Ts>))
        ensures
            r == (self.channel_id, self.thread_ts),
    {
        (self.channel_id.copy(), copy_opt_ts(&self.thread_ts))
    }

    /// Where `reply_in_thread` posts: this channel, in the thread of this
    /// message (its own thread, or the one that it starts).
    pub fn reply_in_thread_target(&self) -> (r: (ChannelId, Option<Ts>))
        ensures
            r.0 == self.channel_id,
            r.1 == Some(
                match self.thread_ts {
                    Some(t) => t,
                    None => self.message_ts,
                },
            ),
    {
        let ts = match &self.thread_ts {
            Some(t) => t.copy(),
            None => self.message_ts.copy(),
        };
        (self.channel_id.copy(), Some(ts))
    }
}

/// A channel that messages can be posted to.
#[derive(Clone, Debug)]
pub struct PartialChannel {
    pub channel_id: ChannelId,
}

impl FromContext for PartialChannel {
    /// Present when the context names a channel.
    open spec fn from_ctx_rel(ctx: Context, r: Option<PartialChannel>) -> bool {
        r == match ctx.channel_id {
            Some(channel_id) => Some(PartialChannel { channel_id }),
            None => None,
        }
    }

    fn from_ctx(ctx: &Context) -> (r: Option<PartialChannel>) {
        match &ctx.channel_id {
            Some(channel_id) => Some(PartialChannel { channel_id: channel_id.copy() }),
            None => None,
        }
    }
}

impl PartialChannel {
    /// Where `reply` posts: this channel, outside any thread.
    pub fn reply_target(&self) -> (r: (ChannelId, Option<Ts>))
        ensures
            r.0 == self.channel_id,
            r.1.is_none(),
    {
        (self.channel_id.copy(), None)
    }
}

/// The user an event came from.
#[derive(Clone, Debug)]
pub struct PartialUser {
    pub user_id: UserId,
}

impl FromContext for PartialUser {
    /// Present when the context names a user.
    open spec fn from_ctx_rel(ctx: Context, r: Option<PartialUser>) -> bool {
        r == match ctx.user_id {
            Some(user_id) => Some(PartialUser { user_id }),
            None => None,
        }
    }

    fn from_ctx(ctx: &Context) -> (r: Option<PartialUser>) {
        match &ctx.user_id {
            Some(user_id) => Some(PartialUser { user_id: user_id.copy() }),
            None => None,
        }
    }
}

} // verus!
