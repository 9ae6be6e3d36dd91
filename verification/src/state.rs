//! The bot's profile picture, and when it changes.
use vstd::prelude::*;

use crate::ids::UserId;

verus! {

/// The two profile pictures of the bot.
#[derive(Clone, Copy, Debug, PartialEq, Eq, PartialOrd, Ord)]
pub enum Profile {
    Shy,
    Katie,
}

/// The image file of a profile picture.
pub open spec fn profile_path(p: Profile) -> Seq<char> {
    match p {
        Profile::Shy => "assets/kasu_shy.png"@,
        Profile::Katie => "assets/kasu_katie.png"@,
    }
}

impl Profile {
    /// The image file of this picture.
    pub fn as_path(&self) -> (r: &'static str)
        ensures
            r@ == profile_path(*self),
    {
        match self {
            Profile::Shy => "assets/kasu_shy.png",
            Profile::Katie => "assets/kasu_katie.png",
        }
    }

    /// Whether two pictures are the same.
    pub fn same(&self, other: &Profile) -> (r: bool)
        ensures
            r == (*self == *other),
    {
        match (self, other) {
            (Profile::Shy, Profile::Shy) => true,
            (Profile::Katie, Profile::Katie) => true,
            _ => false,
        }
    }
}

/// The two pictures have different image files.
pub proof fn lemma_profile_paths_differ()
    ensures
        profile_path(Profile::Shy) != profile_path(Profile::Katie),
{
    reveal_strlit("assets/kasu_shy.png");
    reveal_strlit("assets/kasu_katie.png");
    assert(profile_path(Profile::Shy).len() != profile_path(Profile::Katie).len());
}

/// Seconds without a message from the bot after which it looks shy.
pub const IDLE_SECS: u64 = 300;

/// The picture to switch to, checked once a second: the shy one, once the
/// bot shows the other and has been quiet for more than five minutes.
pub fn pfp_task_step(current: Profile, idle_secs: u64) -> (r: Option<Profile>)
    ensures
        r == (if current == Profile::Katie && idle_secs > IDLE_SECS {
            Some(Profile::Shy)
        } else {
            None
        }),
{
    if current.same(&Profile::Katie) && idle_secs > IDLE_SECS {
        Some(Profile::Shy)
    } else {
        None
    }
}

/// What a message seen by the bot changes.
#[derive(Debug, PartialEq, Eq)]
pub enum BotMsgAction {
    /// Not the bot's own message: nothing.
    Ignore,
    /// The bot spoke: remember when, and switch to `switch_to` if given.
    Spoke { switch_to: Option<Profile> },
}

/// The picture to switch to when the bot speaks: the other one if it looked
/// shy.
pub open spec fn wake_switch(current: Profile) -> Option<Profile> {
    if current == Profile::Shy {
        Some(Profile::Katie)
    } else {
        None
    }
}

/// When the bot itself posts, it stops looking shy.
pub fn bot_msg_send_step(author: &UserId, me: &UserId, current: Profile) -> (r: BotMsgAction)
    ensures
        author@ != me@ ==> r == BotMsgAction::Ignore,
        author@ == me@ ==> r == (BotMsgAction::Spoke { switch_to: wake_switch(current) }),
{
    if !author.same(me) {
        return BotMsgAction::Ignore;
    }
    if current.same(&Profile::Shy) {
        BotMsgAction::Spoke { switch_to: Some(Profile::Katie) }
    } else {
        BotMsgAction::Spoke { switch_to: None }
    }
}

} // verus!
