//! Commands: a message's text split into a command word and its raw
//! argument string, and the typed arguments parsed from that string.
use vstd::prelude::*;

use crate::context::{multi_to_ctx, opt_view, Context, Multi, MultiView, ToMulti};
use crate::event::{Event, FromEvent, WebsocketMessageReceivedEvent};
use crate::ids::{copy_opt_ts, ChannelId, Ts, UserId};
use crate::parser::{finish, CmdArgs, ParseError};
use crate::text::{chars_to_string, lemma_span_props, scan, span, str_chars, CharClass};

verus! {

/// A command: the first word of a message and the rest of its text.
#[derive(Clone, Debug)]
pub struct CmdEvent {
    pub command: String,
    pub arg_raw: String,
    pub user_id: UserId,
    pub channel_id: ChannelId,
    pub thread_ts: Option<Ts>,
    pub message_ts: Ts,
}

/// A command whose arguments have been parsed into `arg`.
#[derive(Clone, Debug)]
pub struct CmdParsedEvent<Args> {
    pub command: String,
    pub arg_raw: String,
    pub user_id: UserId,
    pub channel_id: ChannelId,
    pub thread_ts: Option<Ts>,
    pub message_ts: Ts,
    pub arg: Args,
}

/// How a message text splits into command and raw arguments: at its first
/// space, which stays at the front of the arguments; a text without a space
/// is all command, and its arguments are a single space.
pub open spec fn spec_split_command(t: Seq<char>) -> (Seq<char>, Seq<char>) {
    let i = span(t, CharClass::NotSpace.pred());
    if i < t.len() {
        (t.take(i as int), t.skip(i as int))
    } else {
        (t, seq![' '])
    }
}

/// The two parts of a split message: the command holds no space and the
/// raw arguments start with one; when the text has a space, command and
/// arguments put back together give the text, and otherwise the command is
/// the whole text.
pub proof fn lemma_split_command_parts(t: Seq<char>)
    ensures
        !spec_split_command(t).0.contains(' '),
        spec_split_command(t).1.len() > 0,
        spec_split_command(t).1[0] == ' ',
        t.contains(' ') ==> spec_split_command(t).0 + spec_split_command(t).1 == t,
        !t.contains(' ') ==> spec_split_command(t).0 == t,
{
    let p = CharClass::NotSpace.pred();
    lemma_span_props(t, p);
    let i = span(t, p);
    assert forall|k: int| 0 <= k < i implies t[k] != ' ' by {
        assert(p(t[k]));
    }
    if i < t.len() {
        assert(t[i as int] == ' ');
        assert(t.take(i as int) + t.skip(i as int) =~= t);
        assert(!t.take(i as int).contains(' ')) by {
            if t.take(i as int).contains(' ') {
                let k = choose|k: int| 0 <= k < t.take(i as int).len() && t.take(i as int)[k] == ' ';
                assert(t[k] == ' ');
            }
        }
        assert(t.contains(' '));
    } else {
        assert(!t.contains(' ')) by {
            if t.contains(' ') {
                let k = choose|k: int| 0 <= k < t.len() && t[k] == ' ';
                assert(t[k] == ' ');
            }
        }
    }
}

/// Splits a message text into command and raw arguments.
pub fn split_command(text: &str) -> (r: (String, String))
    ensures
        r.0@ == spec_split_command(text@).0,
        r.1@ == spec_split_command(text@).1,
{
    let v = str_chars(text);
    let i = scan(&v, 0, CharClass::NotSpace);
    assert(v@.skip(0) =~= v@);
    if i < v.len() {
        let command = chars_to_string(&v, 0, i);
        let arg_raw = chars_to_string(&v, i, v.len());
        assert(v@.subrange(0, i as int) =~= v@.take(i as int));
        assert(v@.subrange(i as int, v.len() as int) =~= v@.skip(i as int));
        (command, arg_raw)
    } else {
        let command = chars_to_string(&v, 0, v.len());
        assert(v@.subrange(0, v.len() as int) =~= v@);
        let mut arg_raw = String::new();
        crate::text::push_char(&mut arg_raw, ' ');
        (command, arg_raw)
    }
}

/// The metadata of a command: its channel, thread, message and author.
pub open spec fn cmd_multi(user: UserId, channel: ChannelId, thread: Option<Ts>, message: Ts) -> MultiView {
    MultiView {
        channel_id: Some(channel@),
        message_ts: Some(message@),
        thread_ts: opt_view(thread),
        user_id: Some(user@),
    }
}

/// The arguments parsed from the whole of `raw`, when they parse and
/// nothing is left over.
pub open spec fn parse_complete<Args: CmdArgs>(raw: Seq<char>) -> Option<<Args as DeepView>::V> {
    match Args::spec_parse_args(raw) {
        Some((n, a)) => if n == raw.len() {
            Some(a)
        } else {
            None
        },
        None => None,
    }
}

impl CmdEvent {
    /// The command that a message carries, when it has text.
    pub fn from_message(event: WebsocketMessageReceivedEvent) -> (r: Option<CmdEvent>)
        ensures
            r.is_some() == event.text.is_some(),
            r matches Some(c) ==> {
                &&& c.command@ == spec_split_command(event.text.unwrap()@).0
                &&& c.arg_raw@ == spec_split_command(event.text.unwrap()@).1
                &&& c.user_id == event.user_id
                &&& c.channel_id == event.channel_id
                &&& c.thread_ts == event.thread_ts
                &&& c.message_ts == event.ts
            },
    {
        match event.text {
            Some(text) => {
                let (command, arg_raw) = split_command(text.as_str());
                Some(
                    CmdEvent {
                        command,
                        arg_raw,
                        user_id: event.user_id,
                        channel_id: event.channel_id,
                        thread_ts: event.thread_ts,
                        message_ts: event.ts,
                    },
                )
            },
            None => None,
        }
    }

    /// The command with its arguments parsed as `Args`; `None` when they do
    /// not parse or when text is left after them.
    pub fn to_parsed<Args: CmdArgs>(self) -> (r: Option<CmdParsedEvent<Args>>)
        ensures
            r.is_some() == parse_complete::<Args>(self.arg_raw@).is_some(),
            r matches Some(p) ==> {
                &&& p.arg.deep_view() == parse_complete::<Args>(self.arg_raw@).unwrap()
                &&& p.command == self.command
                &&& p.arg_raw == self.arg_raw
                &&& p.user_id == self.user_id
                &&& p.channel_id == self.channel_id
                &&& p.thread_ts == self.thread_ts
                &&& p.message_ts == self.message_ts
            },
    {
        let v = str_chars(self.arg_raw.as_str());
        assert(v@.skip(0) =~= v@);
        match Args::parse_args_at(&v, 0) {
            Some((n, arg)) => {
                if n < v.len() {
                    None
                } else {
                    Some(
                        CmdParsedEvent {
                            command: self.command,
                            arg_raw: self.arg_raw,
                            user_id: self.user_id,
                            channel_id: self.channel_id,
                            thread_ts: self.thread_ts,
                            message_ts: self.message_ts,
                            arg,
                        },
                    )
                }
            },
            None => None,
        }
    }
}

impl ToMulti for CmdEvent {
    open spec fn spec_multi(&self) -> MultiView {
        cmd_multi(self.user_id, self.channel_id, self.thread_ts, self.message_ts)
    }

    fn get_multi(&self) -> (r: Multi) {
        Multi {
            channel_id: Some(self.channel_id.copy()),
            message_ts: Some(self.message_ts.copy()),
            thread_ts: copy_opt_ts(&self.thread_ts),
            user_id: Some(self.user_id.copy()),
        }
    }
}

impl<Args> ToMulti for CmdParsedEvent<Args> {
    open spec fn spec_multi(&self) -> MultiView {
        cmd_multi(self.user_id, self.channel_id, self.thread_ts, self.message_ts)
    }

    fn get_multi(&self) -> (r: Multi) {
        Multi {
            channel_id: Some(self.channel_id.copy()),
            message_ts: Some(self.message_ts.copy()),
            thread_ts: copy_opt_ts(&self.thread_ts),
            user_id: Some(self.user_id.copy()),
        }
    }
}

/// The raw argument string of a command read as `Args`.
pub trait CmdParse<Args: CmdArgs> {
    fn parse(arg_raw: &str) -> (r: Result<(&str, Args), ParseError>)
        ensures
            match Args::spec_parse_args(arg_raw@) {
                Some((n, a)) => r matches Ok((rest, x)) && rest@ == arg_raw@.skip(n as int)
                    && x.deep_view() == a,
                None => r is Err,
            },
    ;
}

impl<Args: CmdArgs> CmdParse<Args> for CmdEvent {
    fn parse(arg_raw: &str) -> (r: Result<(&str, Args), ParseError>) {
        let v = str_chars(arg_raw);
        assert(v@.skip(0) =~= v@);
        let r = Args::parse_args_at(&v, 0);
        finish(arg_raw, &v, r)
    }
}

/// A command turned into one with parsed arguments.
pub trait ToParsed<Args: CmdArgs> {
    fn to_parsed(event: CmdEvent) -> (r: Option<CmdParsedEvent<Args>>)
        ensures
            r.is_some() == parse_complete::<Args>(event.arg_raw@).is_some(),
            r matches Some(p) ==> {
                &&& p.arg.deep_view() == parse_complete::<Args>(event.arg_raw@).unwrap()
                &&& p.command == event.command
                &&& p.arg_raw == event.arg_raw
                &&& p.user_id == event.user_id
                &&& p.channel_id == event.channel_id
                &&& p.thread_ts == event.thread_ts
                &&& p.message_ts == event.message_ts
            },
    ;
}

impl<Args: CmdArgs> ToParsed<Args> for CmdEvent {
    fn to_parsed(event: CmdEvent) -> (r: Option<CmdParsedEvent<Args>>) {
        event.to_parsed::<Args>()
    }
}

/// An event that names the command it belongs to.
pub trait GetCmd {
    spec fn spec_cmd(&self) -> Seq<char>;

    fn get_cmd(&self) -> (r: String)
        ensures
            r@ == self.spec_cmd(),
    ;
}

impl<Args> GetCmd for CmdParsedEvent<Args> {
    open spec fn spec_cmd(&self) -> Seq<char> {
        self.command@
    }

    fn get_cmd(&self) -> (r: String) {
        self.command.clone()
    }
}

impl<Args: CmdArgs> FromEvent for CmdParsedEvent<Args> {
    /// The commands whose arguments parse as `Args`.
    open spec fn from_event_rel(event: Event, r: Option<CmdParsedEvent<Args>>) -> bool {
        match event {
            Event::Cmd(c) => {
                &&& r.is_some() == parse_complete::<Args>(c.arg_raw@).is_some()
                &&& r matches Some(p) ==> {
                    &&& p.arg.deep_view() == parse_complete::<Args>(c.arg_raw@).unwrap()
                    &&& p.command == c.command
                    &&& p.arg_raw == c.arg_raw
                    &&& p.user_id == c.user_id
                    &&& p.channel_id == c.channel_id
                    &&& p.thread_ts == c.thread_ts
                    &&& p.message_ts == c.message_ts
                }
            },
            _ => r.is_none(),
        }
    }

    fn from_event(event: Event) -> (r: Option<CmdParsedEvent<Args>>) {
        match event {
            Event::Cmd(c) => c.to_parsed::<Args>(),
            _ => None,
        }
    }
}

/// A command event type that a command handler can take.
pub trait FromEventCmd: FromEvent + GetCmd {}

impl<Args: CmdArgs> FromEventCmd for CmdParsedEvent<Args> {}

/// The event that a handler registered for command `name` runs on: the
/// event as `E`, when it is one and names that command.
pub fn select_cmd_event<E: FromEventCmd>(name: &str, event: Event) -> (r: Option<E>)
    ensures
        r matches Some(x) ==> E::from_event_rel(event, Some(x)) && x.spec_cmd() == name@,
        r is None ==> E::from_event_rel(event, None) || exists|y: E|
            E::from_event_rel(event, Some(y)) && y.spec_cmd() != name@,
{
    match E::from_event(event) {
        Some(x) => {
            let c = x.get_cmd();
            if crate::text::str_eq(c.as_str(), name) {
                Some(x)
            } else {
                None
            }
        },
        None => None,
    }
}

/// What the command handler does with a message: the command event to
/// dispatch and its context, when the message has text.
pub fn cmd_handler(event: WebsocketMessageReceivedEvent) -> (r: Option<(Event, Context)>)
    ensures
        r.is_some() == event.text.is_some(),
        r matches Some((e, ctx)) ==> e matches Event::Cmd(c) && {
            &&& c.command@ == spec_split_command(event.text.unwrap()@).0
            &&& c.arg_raw@ == spec_split_command(event.text.unwrap()@).1
            &&& c.user_id == event.user_id
            &&& c.channel_id == event.channel_id
            &&& c.thread_ts == event.thread_ts
            &&& c.message_ts == event.ts
            &&& ctx@ == cmd_multi(c.user_id, c.channel_id, c.thread_ts, c.message_ts)
        },
{
    match CmdEvent::from_message(event) {
        Some(c) => {
            let (e, ctx) = translate_to_ctx(Event::Cmd(c));
            Some((e, ctx))
        },
        None => None,
    }
}

/// An event together with the context that its metadata gives.
pub fn translate_to_ctx(event: Event) -> (r: (Event, Context))
    ensures
        r.0 == event,
        r.1@ == event.spec_multi(),
{
    let ctx = multi_to_ctx(&event);
    (event, ctx)
}

} // verus!
