use crate::decimal::{decimal_u64, parse_u64};
use vstd::prelude::*;

verus! {

/// What a single deletion call told us, reduced to what the retry decision needs.
#[derive(Clone, Debug, PartialEq, Eq)]
pub enum RateLimitSignal {
    /// The post was deleted.
    Success,
    /// The service throttled the call; hints are in seconds to wait, or the
    /// Unix time at which the limit resets.
    TooManyRequests { retry_after: Option<u64>, reset_at: Option<u64> },
    /// The post is already gone.
    NotFound,
    /// Any other non-success status.
    Failure { status: u16, body: String },
    /// The request never produced a response.
    TransportError,
}

/// How an item left the queue.
#[derive(Clone, Copy, Debug, PartialEq, Eq, Structural)]
pub enum TerminalOutcome {
    Deleted,
    SkippedNotFound,
}

/// Why a run had to stop.
#[derive(Clone, Copy, Debug, PartialEq, Eq, Structural)]
pub enum FatalReason {
    UnexpectedStatus { status: u16 },
    TransportFailure,
    RetriesExhausted,
}

/// The decision taken on one deletion outcome.
#[derive(Clone, Copy, Debug, PartialEq, Eq, Structural)]
pub enum Action {
    /// The item is resolved.
    Proceed(TerminalOutcome),
    /// Wait this many seconds, then call again for the same item.
    WaitThen(u64),
    /// Stop the run; the item stays pending.
    Fatal(FatalReason),
}

/// The tunable part of the retry decision.
#[derive(Clone, Copy, Debug, PartialEq, Eq, Structural)]
pub struct RetryPolicy {
    /// Seconds to wait on a throttled call that carries no usable hint.
    pub fallback_wait_secs: u64,
    /// When set, a throttled call at this attempt number or later stops the run.
    pub max_attempts: Option<u32>,
}

/// Seconds from `now` until `reset_at`, or zero if that time has passed.
pub open spec fn wait_until(reset_at: u64, now: u64) -> u64 {
    if reset_at > now {
        (reset_at - now) as u64
    } else {
        0
    }
}

/// The decision for `signal`, the outcome of call number `attempt` for an item,
/// at Unix time `now`.
pub open spec fn decide(policy: RetryPolicy, signal: RateLimitSignal, attempt: u32, now: u64) -> Action {
    match signal {
        RateLimitSignal::Success => Action::Proceed(TerminalOutcome::Deleted),
        RateLimitSignal::NotFound => Action::Proceed(TerminalOutcome::SkippedNotFound),
        RateLimitSignal::TooManyRequests { retry_after, reset_at } => {
            if policy.max_attempts is Some && attempt >= policy.max_attempts->0 {
                Action::Fatal(FatalReason::RetriesExhausted)
            } else {
                match (retry_after, reset_at) {
                    (Some(secs), _) => Action::WaitThen(secs),
                    (None, Some(t)) => Action::WaitThen(wait_until(t, now)),
                    (None, None) => Action::WaitThen(policy.fallback_wait_secs),
                }
            }
        },
        RateLimitSignal::Failure { status, .. } => Action::Fatal(
            FatalReason::UnexpectedStatus { status },
        ),
        RateLimitSignal::TransportError => Action::Fatal(FatalReason::TransportFailure),
    }
}

/// `signal` is the classification of an HTTP response: its status, the raw
/// `Retry-After` and `x-rate-limit-reset` header values if present, and its
/// body. A hint that is not a plain decimal number is ignored.
pub open spec fn classifies(
    signal: RateLimitSignal,
    status: u16,
    retry_after: Option<Seq<char>>,
    reset_at: Option<Seq<char>>,
    body: Seq<char>,
) -> bool {
    if 200 <= status <= 299 {
        signal == RateLimitSignal::Success
    } else if status == 429 {
        signal == RateLimitSignal::TooManyRequests {
            retry_after: header_number(retry_after),
            reset_at: header_number(reset_at),
        }
    } else if status == 404 {
        signal == RateLimitSignal::NotFound
    } else {
        signal matches RateLimitSignal::Failure { status: s, body: b } && s == status && b@
            == body
    }
}

pub open spec fn header_number(h: Option<Seq<char>>) -> Option<u64> {
    match h {
        Some(s) => decimal_u64(s),
        None => None,
    }
}

impl RetryPolicy {
    /// A policy without an attempt ceiling.
    pub fn new(fallback_wait_secs: u64) -> (r: RetryPolicy)
        ensures
            r == (RetryPolicy { fallback_wait_secs, max_attempts: None }),
    {
        RetryPolicy { fallback_wait_secs, max_attempts: None }
    }

    /// The same policy, stopping a throttled item at attempt `max`.
    pub fn with_max_attempts(self, max: u32) -> (r: RetryPolicy)
        ensures
            r == (RetryPolicy { max_attempts: Some(max), ..self }),
    {
        RetryPolicy { max_attempts: Some(max), ..self }
    }

    /// Decides what to do with the outcome of call number `attempt` for an
    /// item, at Unix time `now` (seconds).
    pub fn next_action(&self, signal: &RateLimitSignal, attempt: u32, now: u64) -> (r: Action)
        ensures
            r == decide(*self, *signal, attempt, now),
    {
        match signal {
            RateLimitSignal::Success => Action::Proceed(TerminalOutcome::Deleted),
            RateLimitSignal::NotFound => Action::Proceed(TerminalOutcome::SkippedNotFound),
            RateLimitSignal::TooManyRequests { retry_after, reset_at } => {
                match self.max_attempts {
                    Some(max) => {
                        if attempt >= max {
                            return Action::Fatal(FatalReason::RetriesExhausted);
                        }
                    },
                    None => {},
                }
                match retry_after {
                    Some(secs) => Action::WaitThen(*secs),
                    None => match reset_at {
                        Some(t) => {
                            if *t > now {
                                Action::WaitThen(*t - now)
                            } else {
                                Action::WaitThen(0)
                            }
                        },
                        None => Action::WaitThen(self.fallback_wait_secs),
                    },
                }
            },
            RateLimitSignal::Failure { status, .. } => Action::Fatal(
                FatalReason::UnexpectedStatus { status: *status },
            ),
            RateLimitSignal::TransportError => Action::Fatal(FatalReason::TransportFailure),
        }
    }
}

fn parse_header(h: Option<&str>) -> (r: Option<u64>)
    ensures
        r == header_number(
            match h {
                Some(s) => Some(s@),
                None => None,
            },
        ),
{
    match h {
        Some(s) => parse_u64(s),
        None => None,
    }
}

/// Classifies an HTTP response to a deletion call by its status and its
/// rate-limit headers.
pub fn classify_response(
    status: u16,
    retry_after: Option<&str>,
    reset_at: Option<&str>,
    body: String,
) -> (r: RateLimitSignal)
    ensures
        classifies(
            r,
            status,
            match retry_after {
                Some(s) => Some(s@),
                None => None,
            },
            match reset_at {
                Some(s) => Some(s@),
                None => None,
            },
            body@,
        ),
{
    if 200 <= status && status <= 299 {
        RateLimitSignal::Success
    } else if status == 429 {
        RateLimitSignal::TooManyRequests {
            retry_after: parse_header(retry_after),
            reset_at: parse_header(reset_at),
        }
    } else if status == 404 {
        RateLimitSignal::NotFound
    } else {
        RateLimitSignal::Failure { status, body }
    }
}

} // verus!
