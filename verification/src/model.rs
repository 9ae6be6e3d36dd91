//! The bodies of API requests and responses, and what the bot takes from the
//! responses.
use vstd::prelude::*;

use crate::api::{user_texts, ApiError};
use crate::bridge::{json_quote, json_quoted};
use crate::text::push_str;
use crate::ids::{ChannelId, Ts, UserId};
use slack_morphism::SlackChannelInfo;

verus! {

/// A boolean as the API writes it in preferences: `"true"` or `"false"`.
#[derive(Clone, Copy, Debug, PartialEq, Eq)]
pub enum StrBoolean {
    True,
    False,
}

/// The `StrBoolean` of a boolean.
pub open spec fn str_boolean_of(b: bool) -> StrBoolean {
    if b {
        StrBoolean::True
    } else {
        StrBoolean::False
    }
}

/// The boolean of a `StrBoolean`.
pub open spec fn bool_of(s: StrBoolean) -> bool {
    match s {
        StrBoolean::True => true,
        StrBoolean::False => false,
    }
}

impl From<bool> for StrBoolean {
    fn from(value: bool) -> (r: StrBoolean) {
        if value {
            StrBoolean::True
        } else {
            StrBoolean::False
        }
    }
}

impl vstd::std_specs::convert::FromSpecImpl<bool> for StrBoolean {
    open spec fn obeys_from_spec() -> bool {
        true
    }

    open spec fn from_spec(value: bool) -> StrBoolean {
        str_boolean_of(value)
    }
}

impl From<StrBoolean> for bool {
    fn from(value: StrBoolean) -> (r: bool) {
        match value {
            StrBoolean::True => true,
            StrBoolean::False => false,
        }
    }
}

impl vstd::std_specs::convert::FromSpecImpl<StrBoolean> for bool {
    open spec fn obeys_from_spec() -> bool {
        true
    }

    open spec fn from_spec(value: StrBoolean) -> bool {
        bool_of(value)
    }
}

impl StrBoolean {
    /// The boolean that this value writes.
    pub fn into_bool(self) -> (r: bool)
        ensures
            r == bool_of(self),
    {
        match self {
            StrBoolean::True => true,
            StrBoolean::False => false,
        }
    }

    /// The value that writes `value`.
    pub fn from_bool(value: bool) -> (r: StrBoolean)
        ensures
            r == str_boolean_of(value),
    {
        if value {
            StrBoolean::True
        } else {
            StrBoolean::False
        }
    }
}

/// Converting a boolean to a `StrBoolean` and back gives the boolean, and
/// converting a `StrBoolean` to a boolean and back gives the `StrBoolean`.
pub proof fn lemma_str_boolean_round_trip(b: bool, s: StrBoolean)
    ensures
        bool_of(str_boolean_of(b)) == b,
        str_boolean_of(bool_of(s)) == s,
{
}

/// Who may post in a channel, as the preferences request sends it.
#[derive(Debug)]
pub struct Preference {
    pub who_can_post: String,
    pub can_thread: String,
    pub enable_at_here: StrBoolean,
    pub enable_at_channel: StrBoolean,
}

/// A response that only says whether the request succeeded.
/// The JSON text of a `StrBoolean`: the quoted word `true` or `false`.
pub open spec fn str_boolean_json(b: StrBoolean) -> Seq<char> {
    match b {
        StrBoolean::True => "\"true\""@,
        StrBoolean::False => "\"false\""@,
    }
}

/// The JSON object of a preference, its fields in order, given the JSON
/// literals of its two texts.
pub open spec fn preference_json(
    who: Seq<char>,
    thread: Seq<char>,
    here: StrBoolean,
    channel: StrBoolean,
) -> Seq<char> {
    "{\"who_can_post\":"@ + who + ",\"can_thread\":"@ + thread + ",\"enable_at_here\":"@
        + str_boolean_json(here) + ",\"enable_at_channel\":"@ + str_boolean_json(channel) + "}"@
}

fn push_str_boolean(s: &mut String, b: StrBoolean)
    ensures
        final(s)@ == old(s)@ + str_boolean_json(b),
{
    match b {
        StrBoolean::True => push_str(s, "\"true\""),
        StrBoolean::False => push_str(s, "\"false\""),
    }
}

impl Preference {
    /// The preference as the JSON object that the API takes. Fails only
    /// where one of its texts cannot be written as a JSON literal.
    pub fn to_json(&self) -> (r: Result<String, ApiError>)
        ensures
            r is Ok <==> (json_quoted(self.who_can_post@) is Some && json_quoted(
                self.can_thread@,
            ) is Some),
            r matches Ok(s) ==> s@ == preference_json(
                json_quoted(self.who_can_post@).unwrap(),
                json_quoted(self.can_thread@).unwrap(),
                self.enable_at_here,
                self.enable_at_channel,
            ),
            r matches Err(e) ==> e is SerdeJsonSerializationError,
    {
        let who = match json_quote(self.who_can_post.as_str()) {
            Ok(q) => q,
            Err(e) => return Err(ApiError::SerdeJsonSerializationError(e)),
        };
        let thread = match json_quote(self.can_thread.as_str()) {
            Ok(q) => q,
            Err(e) => return Err(ApiError::SerdeJsonSerializationError(e)),
        };
        let mut s = String::new();
        push_str(&mut s, "{\"who_can_post\":");
        push_str(&mut s, who.as_str());
        push_str(&mut s, ",\"can_thread\":");
        push_str(&mut s, thread.as_str());
        push_str(&mut s, ",\"enable_at_here\":");
        push_str_boolean(&mut s, self.enable_at_here);
        push_str(&mut s, ",\"enable_at_channel\":");
        push_str_boolean(&mut s, self.enable_at_channel);
        push_str(&mut s, "}");
        Ok(s)
    }
}

#[derive(Clone, Copy, Debug)]
pub struct OkResp {
    pub ok: bool,
}

impl OkResp {
    pub fn new(ok: bool) -> (r: OkResp)
        ensures
            r.ok == ok,
    {
        OkResp { ok }
    }

    /// `Ok` when the response says the request succeeded, else `RespNotOk`.
    pub fn as_result(&self) -> (r: Result<(), ApiError>)
        ensures
            r is Ok <==> self.ok,
            r matches Err(e) ==> e is RespNotOk,
    {
        if self.ok {
            Ok(())
        } else {
            Err(ApiError::RespNotOk)
        }
    }
}

/// The response to posting a message.
#[derive(Debug)]
pub struct PostMessageResponse {
    pub channel: ChannelId,
    pub ts: Ts,
    pub message: String,
}

impl PostMessageResponse {
    /// The timestamp of the posted message: what posting returns.
    pub fn posted_ts(self) -> (r: Ts)
        ensures
            r == self.ts,
    {
        self.ts
    }
}

/// The members of one role.
#[derive(Debug)]
pub struct RoleAssignment {
    pub role_id: String,
    pub users: Vec<UserId>,
}

/// The role assignments of a channel.
#[derive(Debug)]
pub struct ListAssignmentsResponse {
    pub role_assignments: Vec<RoleAssignment>,
}

/// The managers named by a list of role assignments: the members of the last
/// assignment of the manager role, or nobody when there is none.
pub open spec fn managers_of(a: Seq<RoleAssignment>) -> Seq<Seq<char>>
    decreases a.len(),
{
    if a.len() == 0 {
        Seq::empty()
    } else if a.last().role_id@ == crate::api::manager_role() {
        user_texts(a.last().users@)
    } else {
        managers_of(a.drop_last())
    }
}

/// A copy of a list of user ids.
pub fn copy_users(v: &Vec<UserId>) -> (r: Vec<UserId>)
    ensures
        user_texts(r@) == user_texts(v@),
{
    let mut r: Vec<UserId> = Vec::new();
    let mut i: usize = 0;
    while i < v.len()
        invariant
            i <= v.len(),
            user_texts(r@) == user_texts(v@).take(i as int),
        decreases v.len() - i,
    {
        let u = v[i].copy();
        let ghost prev = r@;
        r.push(u);
        proof {
            assert(user_texts(r@) =~= user_texts(prev).push(v@[i as int]@));
            assert(user_texts(v@).take(i + 1) =~= user_texts(v@).take(i as int).push(
                v@[i as int]@,
            ));
        }
        i = i + 1;
    }
    assert(user_texts(v@).take(v.len() as int) =~= user_texts(v@));
    r
}

fn is_manager_role(s: &String) -> (r: bool)
    ensures
        r == (s@ == crate::api::manager_role()),
{
    crate::text::str_eq(s.as_str(), "Rl0A")
}

impl ListAssignmentsResponse {
    /// The managers of the channel.
    pub fn channel_managers(&self) -> (r: Vec<UserId>)
        ensures
            user_texts(r@) == managers_of(self.role_assignments@),
    {
        let a = &self.role_assignments;
        let mut i = a.len();
        assert(a@.take(i as int) =~= a@);
        while i > 0
            invariant
                i <= a.len(),
                a@ == self.role_assignments@,
                managers_of(a@) == managers_of(a@.take(i as int)),
            decreases i,
        {
            let ghost t = a@.take(i as int);
            assert(t.last() == a@[i - 1]);
            assert(t.drop_last() =~= a@.take(i - 1));
            if is_manager_role(&a[i - 1].role_id) {
                let r = copy_users(&a[i - 1].users);
                assert(managers_of(t) == user_texts(a@[i - 1].users@));
                return r;
            }
            i = i - 1;
        }
        assert(a@.take(0) =~= Seq::<RoleAssignment>::empty());
        let r: Vec<UserId> = Vec::new();
        assert(user_texts(r@) =~= Seq::empty());
        r
    }
}

/// The response to creating a channel.
#[derive(Debug)]
pub struct ConversationsCreateResponse {
    pub channel: SlackChannelInfo,
}

/// The response to uploading a profile photo.
#[derive(Debug)]
pub struct PreparePhotoResponse {
    pub id: String,
    pub url: String,
}

/// A page of channel members, and the cursor of the next page if any.
#[derive(Debug)]
pub struct MembersPage {
    pub members: Vec<UserId>,
    pub next_cursor: Option<String>,
}

/// Where the listing of a channel's members stands.
#[derive(Debug)]
pub enum PagerState {
    Start,
    Next(String),
    Done,
}

/// Collects the members of a channel page by page.
#[derive(Debug)]
pub struct MembersPager {
    pub members: Vec<UserId>,
    pub state: PagerState,
}

impl MembersPager {
    /// Nothing fetched yet.
    pub fn new() -> (r: MembersPager)
        ensures
            r.members@.len() == 0,
            r.state is Start,
    {
        MembersPager { members: Vec::new(), state: PagerState::Start }
    }

    /// The page to ask for next: `Some(None)` for the first page,
    /// `Some(Some(cursor))` for a following one, `None` when all are in.
    pub fn next_request(&self) -> (r: Option<Option<String>>)
        ensures
            match self.state {
                PagerState::Start => r == Some(None::<String>),
                PagerState::Next(c) => r matches Some(Some(x)) && x@ == c@,
                PagerState::Done => r.is_none(),
            },
    {
        match &self.state {
            PagerState::Start => Some(None),
            PagerState::Next(c) => Some(Some(c.clone())),
            PagerState::Done => None,
        }
    }

    /// Takes in a page: its members are added after those already in, and
    /// the listing goes on at the page's cursor, or ends when it has none.
    pub fn add_page(&mut self, page: MembersPage)
        ensures
            user_texts(final(self).members@) == user_texts(old(self).members@) + user_texts(
                page.members@,
            ),
            match page.next_cursor {
                Some(c) => final(self).state matches PagerState::Next(x) && x@ == c@,
                None => final(self).state is Done,
            },
    {
        let mut i: usize = 0;
        let ghost start = self.members@;
        while i < page.members.len()
            invariant
                i <= page.members.len(),
                user_texts(self.members@) == user_texts(start) + user_texts(page.members@).take(
                    i as int,
                ),
            decreases page.members.len() - i,
        {
            let u = page.members[i].copy();
            let ghost prev = self.members@;
            self.members.push(u);
            proof {
                assert(user_texts(self.members@) =~= user_texts(prev).push(page.members@[i as int]@));
                assert(user_texts(page.members@).take(i + 1) =~= user_texts(page.members@).take(
                    i as int,
                ).push(page.members@[i as int]@));
            }
            i = i + 1;
        }
        assert(user_texts(page.members@).take(page.members.len() as int) =~= user_texts(
            page.members@,
        ));
        self.state = match page.next_cursor {
            Some(c) => PagerState::Next(c),
            None => PagerState::Done,
        };
    }
}

/// The managers of a channel are the users of the last assignment of the
/// manager role, wherever it stands among the assignments: assignments of
/// other roles after it do not matter; with no such assignment there are no
/// managers.
pub proof fn lemma_managers_last_manager_role(a: Seq<RoleAssignment>, j: int)
    requires
        0 <= j < a.len(),
        a[j].role_id@ == crate::api::manager_role(),
        forall|k: int| j < k < a.len() ==> (#[trigger] a[k]).role_id@ != crate::api::manager_role(),
    ensures
        managers_of(a) == user_texts(a[j].users@),
    decreases a.len(),
{
    if j < a.len() - 1 {
        let b = a.drop_last();
        assert forall|k: int| j < k < b.len() implies (#[trigger] b[k]).role_id@ != crate::api::manager_role() by {
            assert(b[k] == a[k]);
        }
        assert(a.last() == a[a.len() - 1]);
        lemma_managers_last_manager_role(b, j);
        assert(b[j] == a[j]);
    } else {
        assert(a.last() == a[j]);
    }
}

/// Without any assignment of the manager role, a channel has no managers.
pub proof fn lemma_managers_none(a: Seq<RoleAssignment>)
    requires
        forall|k: int| 0 <= k < a.len() ==> (#[trigger] a[k]).role_id@ != crate::api::manager_role(),
    ensures
        managers_of(a).len() == 0,
    decreases a.len(),
{
    if a.len() > 0 {
        let b = a.drop_last();
        assert forall|k: int| 0 <= k < b.len() implies (#[trigger] b[k]).role_id@ != crate::api::manager_role() by {
            assert(b[k] == a[k]);
        }
        assert(a.last() == a[a.len() - 1]);
        lemma_managers_none(b);
    }
}

} // verus!
