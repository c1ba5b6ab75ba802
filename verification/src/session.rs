use vstd::prelude::*;
use crate::router::is_exit_topic;
use crate::text::str_eq;

verus! {

/// How often a program tries to reach the event hub before giving up.
pub const MAX_RETRIES: u32 = 10;

/// How long a program waits between two tries, in milliseconds.
pub const RETRY_DELAY_MS: u64 = 500;

/// What a program does after one try to connect to the event hub.
#[derive(Debug, Clone, Copy, PartialEq, Eq)]
pub enum ConnectDecision {
    /// The connection stands; use it.
    Connected,
    /// Wait `delay_ms` milliseconds, then try again.
    RetryAfter { delay_ms: u64 },
    /// That was the last try: report the failure.
    GiveUp,
}

/// The decision after try number `attempt` (counting from 1) succeeded
/// (`connected`) or failed.
pub open spec fn decision(attempt: u32, connected: bool) -> ConnectDecision {
    if connected {
        ConnectDecision::Connected
    } else if attempt == MAX_RETRIES {
        ConnectDecision::GiveUp
    } else {
        ConnectDecision::RetryAfter { delay_ms: RETRY_DELAY_MS }
    }
}

pub fn connect_decision(attempt: u32, connected: bool) -> (d: ConnectDecision)
    requires
        1 <= attempt <= MAX_RETRIES,
    ensures
        d == decision(attempt, connected),
{
    if connected {
        ConnectDecision::Connected
    } else if attempt == MAX_RETRIES {
        ConnectDecision::GiveUp
    } else {
        ConnectDecision::RetryAfter { delay_ms: RETRY_DELAY_MS }
    }
}

/// When the event hub cannot be reached, a program tries exactly
/// `MAX_RETRIES` times, waiting `RETRY_DELAY_MS` after each failed try but
/// the last, and then gives up; a successful try always ends the waiting.
pub proof fn law_tries_are_bounded()
    ensures
        forall|a: u32| 1 <= a < MAX_RETRIES ==> decision(a, false) == (ConnectDecision::RetryAfter { delay_ms: RETRY_DELAY_MS }),
        decision(MAX_RETRIES, false) == ConnectDecision::GiveUp,
        forall|a: u32| #[trigger] decision(a, true) == ConnectDecision::Connected,
{
}

/// Is `topic` the one that asks every program to quit?
pub fn is_exit(topic: &str) -> (b: bool)
    ensures
        b == is_exit_topic(topic@),
{
    str_eq(topic, "system.exit")
}

/// The path of the event hub's socket: in the runtime directory when the
/// environment names one, else in `/tmp`.
pub fn socket_path(runtime_dir: Option<&str>) -> (path: String)
    ensures
        path@ == (match runtime_dir {
            Some(d) => d@,
            None => "/tmp"@,
        }) + "/moh-event-hub.sock"@,
{
    let base: &str = match runtime_dir {
        Some(d) => d,
        None => "/tmp",
    };
    let mut path = base.to_owned();
    path.append("/moh-event-hub.sock");
    path
}

} // verus!
