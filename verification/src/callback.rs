//! What a handler does with the value it returns: a callback, chosen by the
//! handler's return type, that is run on that value in the handler's
//! context.
use vstd::prelude::*;

use crate::api::MessageData;
use crate::context::{Context, FromContext, Messageable};
use crate::ids::{ChannelId, Ts};

verus! {

/// A callback that can be made without arguments.
pub trait Creatable: Sized {
    fn new() -> Self;
}

/// A callback run on a handler's returned value `T` in its context.
pub trait Callback<T> {
    type Return;

    /// How the callback's result relates to the context and the value.
    spec fn call_rel(&self, ctx: Context, input: T, r: Self::Return) -> bool;

    fn call(&self, ctx: &Context, input: T) -> (r: Self::Return)
        ensures
            self.call_rel(*ctx, input, r),
    ;
}

/// A handler's returned value together with the callback to run on it.
#[derive(Debug)]
pub struct Middleware<T, C> {
    pub callback: C,
    pub data: T,
}

impl<T, C: Callback<T> + Creatable> Middleware<T, C> {
    /// The value, with a fresh callback.
    pub fn from_data(value: T) -> (r: Middleware<T, C>)
        ensures
            r.data == value,
    {
        Middleware { callback: C::new(), data: value }
    }

    /// Runs the callback on the value.
    pub fn call_middleware(self, ctx: &Context) -> (r: C::Return)
        ensures
            self.callback.call_rel(*ctx, self.data, r),
    {
        self.callback.call(ctx, self.data)
    }
}

impl<C: Callback<String> + Creatable> Middleware<String, C> {
    /// A text value, with a fresh callback.
    pub fn from_str(value: &str) -> (r: Middleware<String, C>)
        ensures
            r.data@ == value@,
    {
        let mut s = String::new();
        crate::text::push_str(&mut s, value);
        Middleware { callback: C::new(), data: s }
    }
}

/// The callback that does nothing.
#[derive(Debug, Clone, Copy)]
pub struct NoAction;

impl Creatable for NoAction {
    fn new() -> (r: NoAction) {
        NoAction
    }
}

impl<T> Callback<T> for NoAction {
    type Return = ();

    open spec fn call_rel(&self, ctx: Context, input: T, r: ()) -> bool {
        true
    }

    fn call(&self, ctx: &Context, input: T) -> (r: ()) {
    }
}

/// A message to post: where, in which thread, and what.
#[derive(Debug)]
pub struct Post {
    pub channel_id: ChannelId,
    pub thread_ts: Option<Ts>,
    pub message: MessageData,
}

/// The callback that replies with the returned value in the thread of the
/// event's message.
#[derive(Debug, Clone, Copy)]
pub struct ReplyInThread;

impl Creatable for ReplyInThread {
    fn new() -> (r: ReplyInThread) {
        ReplyInThread
    }
}

/// The reply of `message` in the thread of the context's message, when the
/// context names a channel and a message.
pub open spec fn thread_reply(ctx: Context, message: MessageData) -> Option<Post> {
    match (ctx.channel_id, ctx.message_ts) {
        (Some(c), Some(m)) => Some(
            Post {
                channel_id: c,
                thread_ts: Some(
                    match ctx.thread_ts {
                        Some(t) => t,
                        None => m,
                    },
                ),
                message,
            },
        ),
        _ => None,
    }
}

impl ReplyInThread {
    fn plan(ctx: &Context, message: MessageData) -> (r: Option<Post>)
        ensures
            r == thread_reply(*ctx, message),
    {
        match Messageable::from_ctx(ctx) {
            Some(m) => {
                let (channel_id, thread_ts) = m.reply_in_thread_target();
                Some(Post { channel_id, thread_ts, message })
            },
            None => None,
        }
    }
}

impl Callback<MessageData> for ReplyInThread {
    type Return = Option<Post>;

    open spec fn call_rel(&self, ctx: Context, input: MessageData, r: Option<Post>) -> bool {
        r == thread_reply(ctx, input)
    }

    fn call(&self, ctx: &Context, input: MessageData) -> (r: Option<Post>) {
        ReplyInThread::plan(ctx, input)
    }
}

impl Callback<String> for ReplyInThread {
    type Return = Option<Post>;

    /// Text is posted as plain text.
    open spec fn call_rel(&self, ctx: Context, input: String, r: Option<Post>) -> bool {
        r == thread_reply(ctx, MessageData::Raw(input))
    }

    fn call(&self, ctx: &Context, input: String) -> (r: Option<Post>) {
        ReplyInThread::plan(ctx, MessageData::Raw(input))
    }
}

impl Callback<Option<MessageData>> for ReplyInThread {
    type Return = Option<Post>;

    /// Nothing to post, nothing posted.
    open spec fn call_rel(&self, ctx: Context, input: Option<MessageData>, r: Option<Post>) -> bool {
        r == match input {
            Some(m) => thread_reply(ctx, m),
            None => None,
        }
    }

    fn call(&self, ctx: &Context, input: Option<MessageData>) -> (r: Option<Post>) {
        match input {
            Some(m) => ReplyInThread::plan(ctx, m),
            None => None,
        }
    }
}

impl Callback<Option<String>> for ReplyInThread {
    type Return = Option<Post>;

    open spec fn call_rel(&self, ctx: Context, input: Option<String>, r: Option<Post>) -> bool {
        r == match input {
            Some(s) => thread_reply(ctx, MessageData::Raw(s)),
            None => None,
        }
    }

    fn call(&self, ctx: &Context, input: Option<String>) -> (r: Option<Post>) {
        match input {
            Some(s) => ReplyInThread::plan(ctx, MessageData::Raw(s)),
            None => None,
        }
    }
}

/// A thread reply goes to the channel of the context, into the thread the
/// message sits in when the context names one, and otherwise into the
/// thread that the message itself starts; without a channel or a message
/// nothing is posted.
pub proof fn lemma_thread_reply_target(ctx: Context, message: MessageData)
    ensures
        (ctx.channel_id is None || ctx.message_ts is None) ==> thread_reply(ctx, message) is None,
        (ctx.channel_id is Some && ctx.message_ts is Some) ==> {
            &&& thread_reply(ctx, message) is Some
            &&& thread_reply(ctx, message).unwrap().channel_id == ctx.channel_id.unwrap()
            &&& thread_reply(ctx, message).unwrap().message == message
            &&& ctx.thread_ts is Some ==> thread_reply(ctx, message).unwrap().thread_ts
                == ctx.thread_ts
            &&& ctx.thread_ts is None ==> thread_reply(ctx, message).unwrap().thread_ts == Some(
                ctx.message_ts.unwrap(),
            )
        },
{
}

} // verus!
