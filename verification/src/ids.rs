//! Slack identifiers: channels, users and message timestamps.
use vstd::prelude::*;

use crate::text::{chars_to_string, push_char, str_chars};

verus! {

/// A Slack channel id such as `C0123ABCD`.
#[derive(Clone, Debug, PartialEq, Eq, Hash)]
pub struct ChannelId(pub String);

/// A Slack user id such as `U0123ABCD`.
#[derive(Clone, Debug, PartialEq, Eq, Hash)]
pub struct UserId(pub String);

/// A Slack message timestamp such as `1712345678.000100`.
#[derive(Clone, Debug, PartialEq, Eq, Hash)]
pub struct Ts(pub String);

impl View for ChannelId {
    type V = Seq<char>;

    open spec fn view(&self) -> Seq<char> {
        self.0@
    }
}

impl DeepView for ChannelId {
    type V = Seq<char>;

    open spec fn deep_view(&self) -> Seq<char> {
        self.0@
    }
}

impl View for UserId {
    type V = Seq<char>;

    open spec fn view(&self) -> Seq<char> {
        self.0@
    }
}

impl DeepView for UserId {
    type V = Seq<char>;

    open spec fn deep_view(&self) -> Seq<char> {
        self.0@
    }
}

impl View for Ts {
    type V = Seq<char>;

    open spec fn view(&self) -> Seq<char> {
        self.0@
    }
}

impl DeepView for Ts {
    type V = Seq<char>;

    open spec fn deep_view(&self) -> Seq<char> {
        self.0@
    }
}

/// `<@id>`: how a user is mentioned in message text.
pub open spec fn user_mention(id: Seq<char>) -> Seq<char> {
    seq!['<', '@'] + id + seq!['>']
}

/// `<#id>`: how a channel is mentioned in message text.
pub open spec fn channel_mention(id: Seq<char>) -> Seq<char> {
    seq!['<', '#'] + id + seq!['>']
}

/// `sigil` + `id` wrapped in angle brackets.
fn wrap_mention(sigil: char, id: &String) -> (r: String)
    ensures
        r@ == seq!['<', sigil] + id@ + seq!['>'],
{
    let v = str_chars(id.as_str());
    let mut r = String::new();
    push_char(&mut r, '<');
    push_char(&mut r, sigil);
    let mut i: usize = 0;
    while i < v.len()
        invariant
            v@ == id@,
            i <= v.len(),
            r@ == seq!['<', sigil] + v@.take(i as int),
        decreases v.len() - i,
    {
        push_char(&mut r, v[i]);
        i = i + 1;
        assert(r@ =~= seq!['<', sigil] + v@.take(i as int));
    }
    push_char(&mut r, '>');
    assert(v@.take(v.len() as int) =~= v@);
    r
}

impl ChannelId {
    /// The channel id made of the characters of `s`.
    pub fn new(s: &str) -> (r: ChannelId)
        ensures
            r@ == s@,
    {
        let v = str_chars(s);
        ChannelId(chars_to_string(&v, 0, v.len()))
    }

    /// A copy of this id.
    pub fn copy(&self) -> (r: ChannelId)
        ensures
            r == *self,
    {
        ChannelId(self.0.clone())
    }

    /// The id as text.
    pub fn as_str(&self) -> (r: &str)
        ensures
            r@ == self@,
    {
        self.0.as_str()
    }

    /// The mention form `<#id>`.
    pub fn to_slack_format(&self) -> (r: String)
        ensures
            r@ == channel_mention(self@),
    {
        wrap_mention('#', &self.0)
    }

    /// Whether two ids are the same.
    pub fn same(&self, other: &ChannelId) -> (r: bool)
        ensures
            r == (self@ == other@),
    {
        crate::text::str_eq(self.0.as_str(), other.0.as_str())
    }
}

impl UserId {
    /// The user id made of the characters of `s`.
    pub fn new(s: &str) -> (r: UserId)
        ensures
            r@ == s@,
    {
        let v = str_chars(s);
        UserId(chars_to_string(&v, 0, v.len()))
    }

    /// A copy of this id.
    pub fn copy(&self) -> (r: UserId)
        ensures
            r == *self,
    {
        UserId(self.0.clone())
    }

    /// The id as text.
    pub fn as_str(&self) -> (r: &str)
        ensures
            r@ == self@,
    {
        self.0.as_str()
    }

    /// The mention form `<@id>`.
    pub fn to_slack_format(&self) -> (r: String)
        ensures
            r@ == user_mention(self@),
    {
        wrap_mention('@', &self.0)
    }

    /// Whether two ids are the same.
    pub fn same(&self, other: &UserId) -> (r: bool)
        ensures
            r == (self@ == other@),
    {
        crate::text::str_eq(self.0.as_str(), other.0.as_str())
    }
}

impl Ts {
    /// The timestamp made of the characters of `s`.
    pub fn new(s: &str) -> (r: Ts)
        ensures
            r@ == s@,
    {
        let v = str_chars(s);
        Ts(chars_to_string(&v, 0, v.len()))
    }

    /// A copy of this timestamp.
    pub fn copy(&self) -> (r: Ts)
        ensures
            r == *self,
    {
        Ts(self.0.clone())
    }

    /// The timestamp as text.
    pub fn as_str(&self) -> (r: &str)
        ensures
            r@ == self@,
    {
        self.0.as_str()
    }
}

/// A copy of an optional timestamp.
pub fn copy_opt_ts(t: &Option<Ts>) -> (r: Option<Ts>)
    ensures
        r == *t,
{
    match t {
        Some(x) => Some(x.copy()),
        None => None,
    }
}

/// A copy of an optional user id.
pub fn copy_opt_user(t: &Option<UserId>) -> (r: Option<UserId>)
    ensures
        r == *t,
{
    match t {
        Some(x) => Some(x.copy()),
        None => None,
    }
}

/// A copy of an optional channel id.
pub fn copy_opt_channel(t: &Option<ChannelId>) -> (r: Option<ChannelId>)
    ensures
        r == *t,
{
    match t {
        Some(x) => Some(x.copy()),
        None => None,
    }
}

/// `id` is one of the ids in `list`.
pub open spec fn has_user(list: Seq<UserId>, id: Seq<char>) -> bool {
    exists|i: int| 0 <= i < list.len() && (#[trigger] list[i])@ == id
}

/// Whether `id` is one of `list` (`Vec::contains`).
pub fn contains_user(list: &Vec<UserId>, id: &UserId) -> (r: bool)
    ensures
        r == has_user(list@, id@),
{
    let mut i: usize = 0;
    while i < list.len()
        invariant
            i <= list.len(),
            forall|j: int| 0 <= j < i ==> (#[trigger] list@[j])@ != id@,
        decreases list.len() - i,
    {
        if list[i].same(id) {
            return true;
        }
        i = i + 1;
    }
    false
}

} // verus!
