use vstd::prelude::*;
use crate::error::Error;

verus! {

/// Interval, in seconds, after which a healthy object is reconciled again.
pub const RESYNC_SECS: u64 = 60;

/// Delay, in seconds, before a failed object is reconciled again.
pub const BACKOFF_SECS: u64 = 10;

/// What to do with an object key once an attempt has succeeded.
#[derive(Clone, Copy, Debug, PartialEq, Eq, Structural)]
pub enum Action {
    /// Reconcile again this many seconds after the attempt started.
    RequeueAfter(u64),
    /// Reconcile again as soon as fairness allows.
    RequeueImmediate,
    /// Set no timer; wait for the next change notification.
    AwaitChange,
}

/// When the key is next due, in seconds from the start of the attempt.
pub open spec fn delay_of(a: Action) -> Option<u64> {
    match a {
        Action::RequeueAfter(d) => Some(d),
        Action::RequeueImmediate => Some(0),
        Action::AwaitChange => None,
    }
}

/// Requeue decision for an attempt that failed: every failure is retried at the fixed backoff.
pub fn error_policy(error: &Error) -> (r: Action)
    ensures
        r == Action::RequeueAfter(BACKOFF_SECS),
{
    Action::RequeueAfter(BACKOFF_SECS)
}

/// Delay before the next attempt for a key, given the outcome of the last one.
pub open spec fn requeue_delay_of(outcome: Result<Action, Error>) -> Option<u64> {
    match outcome {
        Ok(a) => delay_of(a),
        Err(_) => Some(BACKOFF_SECS),
    }
}

/// Delay, in seconds, before the key must be reconciled again; `None` waits for a change.
pub fn requeue_delay(outcome: &Result<Action, Error>) -> (r: Option<u64>)
    ensures
        r == requeue_delay_of(*outcome),
{
    match outcome {
        Ok(a) => match a {
            Action::RequeueAfter(d) => Some(*d),
            Action::RequeueImmediate => Some(0),
            Action::AwaitChange => None,
        },
        Err(e) => match error_policy(e) {
            Action::RequeueAfter(d) => Some(d),
            Action::RequeueImmediate => Some(0),
            Action::AwaitChange => None,
        },
    }
}

} // verus!
