//! The real-time connection: where it connects, the pings that keep it
//! alive, when it is given up, and how soon it is opened again.
use vstd::prelude::*;

use crate::bridge::{jitter_millis, random_ping_id};
use crate::text::{decimal, push_decimal, push_str};

verus! {

/// Longest wait, in seconds, before connecting again.
pub const MAX_TIMEOUT: u64 = 600;

/// A connection that lasted longer than this many milliseconds was healthy:
/// the next one is opened at once and the back-off starts over.
pub const HEALTHY_MILLIS: u64 = 30000;

/// Idle intervals in a row after which the connection is given up.
pub const MAX_IDLE_PINGS: u32 = 3;

/// The address to connect to: the one the server named for reconnecting,
/// else the primary address with the token.
pub open spec fn spec_ws_url(xoxc: Seq<char>, url: Option<Seq<char>>) -> Seq<char> {
    match url {
        Some(u) => u,
        None => "wss://wss-primary.slack.com/?token="@ + xoxc,
    }
}

/// The address to connect to.
pub fn ws_url(xoxc: &str, url: Option<String>) -> (r: String)
    ensures
        r@ == spec_ws_url(xoxc@, crate::context::opt_view(url)),
{
    match url {
        Some(u) => u,
        None => {
            let mut r = String::new();
            push_str(&mut r, "wss://wss-primary.slack.com/?token=");
            push_str(&mut r, xoxc);
            r
        },
    }
}

/// The `Cookie` header of the connection request.
pub fn ws_cookie(xoxd: &str) -> (r: String)
    ensures
        r@ == "tz=0; d="@ + xoxd@,
{
    let mut r = String::new();
    push_str(&mut r, "tz=0; d=");
    push_str(&mut r, xoxd);
    r
}

/// The ping message with id `id`.
pub open spec fn ping_text(id: nat) -> Seq<char> {
    "{\"type\":\"ping\",\"id\":"@ + decimal(id) + "}"@
}

/// The ping message with id `id`.
pub fn ping_message(id: u32) -> (r: String)
    ensures
        r@ == ping_text(id as nat),
{
    let mut r = String::new();
    push_str(&mut r, "{\"type\":\"ping\",\"id\":");
    push_decimal(&mut r, id as u64);
    push_str(&mut r, "}");
    r
}

/// A ping message with a random id below 65536.
pub fn gen_ping() -> (r: String)
    ensures
        exists|id: nat| id < 65536 && r@ == ping_text(id),
{
    let id = random_ping_id();
    ping_message(id)
}

/// What to do when the connection has been idle for an interval.
#[derive(Debug, Clone, Copy, PartialEq, Eq)]
pub enum IdleAction {
    /// Send a ping and keep listening.
    Ping,
    /// Give the connection up.
    Disconnect,
}

/// Counts the idle intervals since the last message.
#[derive(Debug, Clone, Copy)]
pub struct IdleWatch {
    pub retries: u32,
}

impl IdleWatch {
    pub fn new() -> (r: IdleWatch)
        ensures
            r.retries == 0,
    {
        IdleWatch { retries: 0 }
    }

    /// A message arrived: the count starts over.
    pub fn on_message(&mut self)
        ensures
            final(self).retries == 0,
    {
        self.retries = 0;
    }

    /// An interval passed without a message: ping, or give up after more
    /// than three unanswered intervals.
    pub fn on_idle(&mut self) -> (r: IdleAction)
        ensures
            old(self).retries > MAX_IDLE_PINGS ==> r == IdleAction::Disconnect && final(self).retries == old(self).retries,
            old(self).retries <= MAX_IDLE_PINGS ==> r == IdleAction::Ping && final(self).retries
                == old(self).retries + 1,
    {
        if self.retries > MAX_IDLE_PINGS {
            IdleAction::Disconnect
        } else {
            self.retries = self.retries + 1;
            IdleAction::Ping
        }
    }
}

/// The count after `n` idle intervals in a row from a fresh count.
pub open spec fn retries_after(n: nat) -> nat
    decreases n,
{
    if n == 0 {
        0
    } else {
        let p = retries_after((n - 1) as nat);
        if p > MAX_IDLE_PINGS {
            p
        } else {
            p + 1
        }
    }
}

/// From a fresh count, idle intervals in a row are answered by pings four
/// times; the fifth, and any later one, gives the connection up.
pub proof fn lemma_idle_run(n: nat)
    ensures
        retries_after(n) == (if n <= 4 {
            n
        } else {
            4
        }),
        (retries_after(n) > MAX_IDLE_PINGS) == (n >= 4),
    decreases n,
{
    if n > 0 {
        lemma_idle_run((n - 1) as nat);
    }
}

/// How long to wait before connecting again.
#[derive(Debug)]
pub enum Reconnect {
    /// Connect again at once.
    Now,
    /// Wait, then connect: `base_millis` is the back-off delay, and `delay`
    /// the randomly shortened wait that is actually slept.
    After { base_millis: u64, delay: std::time::Duration },
}

/// The first back-off delay, and the factor by which it grows.
pub const BACKOFF_BASE_MILLIS: u64 = 100;

/// The longest back-off delay: `MAX_TIMEOUT` seconds.
pub const MAX_DELAY_MILLIS: u64 = 600000;

/// `a * b`, or `u64::MAX` where that overflows.
pub open spec fn saturating_mul(a: u64, b: u64) -> u64 {
    if a * b > u64::MAX {
        u64::MAX
    } else {
        (a * b) as u64
    }
}

/// The delay that an exponential back-off whose current value is
/// `current` gives: the current value, capped at the longest delay
/// (`ExponentialBackoff::next` of tokio-retry, with factor 1).
pub open spec fn backoff_delay(current: u64) -> u64 {
    if current > MAX_DELAY_MILLIS {
        MAX_DELAY_MILLIS
    } else {
        current
    }
}

/// The current value after a delay is given: multiplied by the base,
/// saturating, unless the cap was reached, where it stays.
pub open spec fn backoff_next_value(current: u64) -> u64 {
    if current > MAX_DELAY_MILLIS {
        current
    } else {
        saturating_mul(current, BACKOFF_BASE_MILLIS)
    }
}

/// The current value of the back-off after `k` delays from a fresh start.
pub open spec fn backoff_value_after(k: nat) -> u64
    decreases k,
{
    if k == 0 {
        BACKOFF_BASE_MILLIS
    } else {
        backoff_next_value(backoff_value_after((k - 1) as nat))
    }
}

/// The back-off schedule: the first wait is 100 ms, the second 10 s, and
/// every later one is the ten-minute cap.
pub proof fn lemma_backoff_schedule(k: nat)
    ensures
        backoff_delay(backoff_value_after(k)) == (if k == 0 {
            100
        } else if k == 1 {
            10000
        } else {
            MAX_DELAY_MILLIS
        }),
        backoff_delay(backoff_value_after(k)) <= MAX_DELAY_MILLIS,
    decreases k,
{
    if k >= 3 {
        lemma_backoff_schedule((k - 1) as nat);
        assert(backoff_value_after((k - 1) as nat) > MAX_DELAY_MILLIS) by {
            lemma_backoff_capped((k - 1) as nat);
        }
    } else if k == 2 {
        lemma_backoff_first_values();
    } else if k == 1 {
        lemma_backoff_first_values();
    }
}

proof fn lemma_backoff_first_values()
    ensures
        backoff_value_after(0) == 100,
        backoff_value_after(1) == 10000,
        backoff_value_after(2) == 1000000,
{
    assert(backoff_value_after(0) == 100);
    assert(saturating_mul(100, 100) == 10000);
    assert(backoff_value_after(1) == 10000);
    assert(saturating_mul(10000, 100) == 1000000);
    assert(backoff_value_after(2) == 1000000);
}

proof fn lemma_backoff_capped(k: nat)
    requires
        k >= 2,
    ensures
        backoff_value_after(k) == 1000000,
    decreases k,
{
    if k == 2 {
        lemma_backoff_first_values();
    } else {
        lemma_backoff_capped((k - 1) as nat);
    }
}

/// The reconnection schedule: exponential back-off from 100 ms, capped at
/// ten minutes, each wait randomly shortened.
#[derive(Debug)]
pub struct ReconnectPolicy {
    /// The back-off's current value, in milliseconds.
    pub current_millis: u64,
    /// Waits since the schedule last started over.
    pub attempts: u64,
}

impl ReconnectPolicy {
    /// A fresh schedule.
    pub fn new() -> (r: ReconnectPolicy)
        ensures
            r.attempts == 0,
            r.current_millis == BACKOFF_BASE_MILLIS,
    {
        ReconnectPolicy { current_millis: BACKOFF_BASE_MILLIS, attempts: 0 }
    }

    /// A connection ended after `elapsed_millis`: a healthy one is opened
    /// again at once with a fresh schedule; otherwise wait the next delay of
    /// the schedule.
    pub fn after_connection(&mut self, elapsed_millis: u64) -> (r: Reconnect)
        ensures
            elapsed_millis > HEALTHY_MILLIS ==> {
                &&& r is Now
                &&& final(self).attempts == 0
                &&& final(self).current_millis == BACKOFF_BASE_MILLIS
            },
            elapsed_millis <= HEALTHY_MILLIS ==> {
                &&& r matches Reconnect::After { base_millis, .. } && base_millis == backoff_delay(
                    old(self).current_millis,
                )
                &&& final(self).current_millis == backoff_next_value(old(self).current_millis)
                &&& final(self).attempts == (if old(self).attempts < u64::MAX {
                    old(self).attempts + 1
                } else {
                    old(self).attempts as int
                })
            },
    {
        if elapsed_millis > HEALTHY_MILLIS {
            self.current_millis = BACKOFF_BASE_MILLIS;
            self.attempts = 0;
            return Reconnect::Now;
        }
        if self.attempts < u64::MAX {
            self.attempts = self.attempts + 1;
        }
        let current = self.current_millis;
        let base_millis = if current > MAX_DELAY_MILLIS {
            MAX_DELAY_MILLIS
        } else {
            current
        };
        if current <= MAX_DELAY_MILLIS {
            self.current_millis = match current.checked_mul(BACKOFF_BASE_MILLIS) {
                Some(v) => v,
                None => u64::MAX,
            };
        }
        Reconnect::After { base_millis, delay: jitter_millis(base_millis) }
    }
}

} // verus!
