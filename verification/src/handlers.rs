//! What the message handlers answer.
use vstd::prelude::*;

use crate::api::{join, join_texts, string_views};
use crate::bridge::{lowercase, to_lowercase};
use crate::ids::{user_mention, UserId};
use crate::text::{contains, contains_seq, push_str};

verus! {

/// The text of a message, or `N/A` when it has none.
pub open spec fn text_or_na(t: Option<String>) -> Seq<char> {
    match t {
        Some(s) => s@,
        None => "N/A"@,
    }
}

/// The user allowed to try out channel permissions.
pub open spec fn permission_tester() -> Seq<char> {
    "U092BGL0UUQ"@
}

/// The message comes from the permission tester.
pub open spec fn is_tester(user: Option<UserId>) -> bool {
    match user {
        Some(u) => u@ == permission_tester(),
        None => false,
    }
}

/// Which answers a message calls for.
#[derive(Debug, Clone, Copy, PartialEq, Eq)]
pub struct MsgRespondPlan {
    /// Say hello in the thread.
    pub greet: bool,
    /// List the channel managers in the thread.
    pub list_managers: bool,
    /// Restrict posting for a minute, then restore it, reporting each.
    pub permission_test: bool,
}

/// What a message calls for, read from its text in lower case: `hi kasu`
/// asks for a greeting; `kasu` with `channel manager` for the managers;
/// `kasu` with `channel permission`, from the permission tester, for the
/// permission trial.
pub fn msg_respond_plan(text: &Option<String>, user: &Option<UserId>) -> (r: MsgRespondPlan)
    ensures
        ({
            let lower = lowercase(text_or_na(*text));
            &&& r.greet == contains_seq(lower, "hi kasu"@)
            &&& r.list_managers == (contains_seq(lower, "kasu"@) && contains_seq(
                lower,
                "channel manager"@,
            ))
            &&& r.permission_test == (contains_seq(lower, "kasu"@) && contains_seq(
                lower,
                "channel permission"@,
            ) && is_tester(*user))
        }),
{
    let lower = match text {
        Some(t) => to_lowercase(t.as_str()),
        None => to_lowercase("N/A"),
    };
    let greet = contains(lower.as_str(), "hi kasu");
    let list_managers = contains(lower.as_str(), "kasu") && contains(
        lower.as_str(),
        "channel manager",
    );
    let mut permission_test = false;
    if contains(lower.as_str(), "kasu") && contains(lower.as_str(), "channel permission") {
        match user {
            Some(u) => {
                permission_test = crate::text::str_eq(u.as_str(), "U092BGL0UUQ");
            },
            None => {},
        }
    }
    MsgRespondPlan { greet, list_managers, permission_test }
}

/// The mentions of a list of users.
pub open spec fn mention_texts(v: Seq<UserId>) -> Seq<Seq<char>> {
    v.map_values(|u: UserId| user_mention(u@))
}

/// The reply that lists the managers: their mentions, comma-separated.
pub fn manager_list_text(users: &Vec<UserId>) -> (r: String)
    ensures
        r@ == join(mention_texts(users@), ", "@),
{
    let mut ms: Vec<String> = Vec::new();
    let mut i: usize = 0;
    while i < users.len()
        invariant
            i <= users.len(),
            string_views(ms@) == mention_texts(users@).take(i as int),
        decreases users.len() - i,
    {
        let m = users[i].to_slack_format();
        let ghost prev = ms@;
        ms.push(m);
        proof {
            assert(string_views(ms@) =~= string_views(prev).push(user_mention(users@[i as int]@)));
            assert(mention_texts(users@).take(i + 1) =~= mention_texts(users@).take(i as int).push(
                user_mention(users@[i as int]@),
            ));
        }
        i = i + 1;
    }
    assert(mention_texts(users@).take(users.len() as int) =~= mention_texts(users@));
    join_texts(&ms, ", ")
}

/// `Success` or `Failed`.
pub fn result_text(ok: bool) -> (r: String)
    ensures
        r@ == (if ok {
            "Success"@
        } else {
            "Failed"@
        }),
{
    let mut r = String::new();
    if ok {
        push_str(&mut r, "Success");
    } else {
        push_str(&mut r, "Failed");
    }
    r
}

/// The users who may post during the permission trial.
pub fn permission_test_users() -> (r: Vec<UserId>)
    ensures
        r@.len() == 2,
        r@[0]@ == "U092BGL0UUQ"@,
        r@[1]@ == "U0BGXBNBKNU"@,
{
    let mut r: Vec<UserId> = Vec::new();
    r.push(UserId::new("U092BGL0UUQ"));
    r.push(UserId::new("U0BGXBNBKNU"));
    r
}

/// The reply of the user-id command.
pub fn get_user_id_text(user: &UserId) -> (r: String)
    ensures
        r@ == "Extracted user id: "@ + user@,
{
    let mut r = String::new();
    push_str(&mut r, "Extracted user id: ");
    push_str(&mut r, user.as_str());
    r
}

} // verus!
