//! Deadlines: one time budget per request, spent first waiting for the
//! response head and then reading the body. The timers themselves run
//! outside; these functions decide what each waiting step resolves to.

use vstd::prelude::*;
use crate::error::Error;

verus! {

/// How a wait that was bounded by a timer ended.
#[derive(Debug)]
pub enum Outcome<T> {
    /// The awaited operation finished first, with this result.
    Ready(T),
    /// The timer fired first.
    TimedOut,
    /// The timer itself failed; its message.
    TimerFailed(String),
}

/// The budget `timeout` is used up after `elapsed` milliseconds.
pub open spec fn expired(timeout: Option<u64>, elapsed: u64) -> bool {
    match timeout {
        Some(limit) => elapsed >= limit,
        None => false,
    }
}

/// What is left of `timeout` after `elapsed` milliseconds: `None` for no
/// deadline, `Timeout` once it is used up.
pub fn remaining(timeout: Option<u64>, elapsed: u64) -> (r: Result<Option<u64>, Error>)
    ensures
        expired(timeout, elapsed) ==> r is Err && r->Err_0 is Timeout,
        !expired(timeout, elapsed) ==> r is Ok && r->Ok_0 == match timeout {
            Some(limit) => Some((limit - elapsed) as u64),
            None => None,
        },
{
    match timeout {
        Some(limit) => {
            if elapsed >= limit {
                Err(Error::Timeout)
            } else {
                Ok(Some(limit - elapsed))
            }
        },
        None => Ok(None),
    }
}

/// The result of a wait that finished after `elapsed` milliseconds with
/// `outcome`: once the budget is used up it is `Timeout`, whatever the
/// transport produced.
pub fn bounded<T>(timeout: Option<u64>, elapsed: u64, outcome: Result<T, Error>) -> (r: Result<T, Error>)
    ensures
        expired(timeout, elapsed) ==> r is Err && r->Err_0 is Timeout,
        !expired(timeout, elapsed) ==> r == outcome,
{
    match timeout {
        Some(limit) => {
            if elapsed >= limit {
                return Err(Error::Timeout);
            }
        },
        None => {},
    }
    outcome
}

/// The result of a timer-bounded wait: a timer that fired is `Timeout`, a
/// timer that failed is `Timer`, otherwise the operation's own result.
pub fn settle<T>(outcome: Outcome<Result<T, Error>>) -> (r: Result<T, Error>)
    ensures
        match outcome {
            Outcome::Ready(x) => r == x,
            Outcome::TimedOut => r is Err && r->Err_0 is Timeout,
            Outcome::TimerFailed(m) => r is Err && r->Err_0 == Error::Timer(m),
        },
{
    match outcome {
        Outcome::Ready(x) => x,
        Outcome::TimedOut => Err(Error::Timeout),
        Outcome::TimerFailed(m) => Err(Error::Timer(m)),
    }
}

} // verus!
