//! Taking one connection from a Windows pipe, within a timeout.
//!
//! The listener has no accept with a deadline, so it is made non-blocking and
//! polled: it answers that it would block while no writer is there. Each state
//! of [`Accepting`] is the one thing to do next; [`Accepting::next`] takes the
//! system's answer to it.

use vstd::prelude::*;

use crate::failure::{Failure, Step};
use crate::host::Span;

verus! {

/// How long to sleep between two polls, in milliseconds.
pub const NAP_MILLIS: u64 = 2;

/// How long to sleep between two polls.
pub open spec fn nap_length() -> Span {
    Span { nanos: (NAP_MILLIS * 1_000_000) as u128 }
}

/// What to do next for a connection. `S` is the connection, `E` the system's
/// error.
#[derive(Debug)]
pub enum Accepting<S, E> {
    /// Accept, for as long as it takes.
    Accept,
    /// Make the listener non-blocking, and note the time.
    Unblock { timeout: Span },
    /// Accept without blocking.
    Poll { timeout: Span },
    /// Sleep for `nap`.
    Nap { timeout: Span, nap: Span },
    /// Make the listener blocking again.
    Restore { accepted: Result<S, Failure<E>> },
    /// Make the connection blocking.
    Settle { stream: S },
    /// Nothing: this is the result.
    Finished(Result<S, Failure<E>>),
}

/// What the system answered.
#[derive(Debug)]
pub enum AcceptAnswer<S, E> {
    /// A connection was there.
    Accepted(S),
    /// No writer is there, this long after the listener became non-blocking.
    WouldBlock { waited: Span },
    /// It was done.
    Done,
    /// It failed.
    Failed(E),
}

/// The first thing to do: accept for as long as it takes where there is no
/// timeout, and prepare to poll where there is one.
pub open spec fn accept_start<S, E>(timeout: Option<Span>) -> Accepting<S, E> {
    match timeout {
        None => Accepting::Accept,
        Some(timeout) => Accepting::Unblock { timeout },
    }
}

/// What follows `state` when the system answers `answer` to it. An answer to
/// something else than what `state` asks for changes nothing.
pub open spec fn accept_step<S, E>(
    state: Accepting<S, E>,
    answer: AcceptAnswer<S, E>,
) -> Accepting<S, E> {
    match (state, answer) {
        (Accepting::Accept, AcceptAnswer::Accepted(stream)) => Accepting::Finished(Ok(stream)),
        (Accepting::Accept, AcceptAnswer::Failed(error)) => Accepting::Finished(
            Err(Failure::System { at: Step::Accepting, error }),
        ),
        (Accepting::Unblock { timeout }, AcceptAnswer::Done) => Accepting::Poll { timeout },
        (Accepting::Unblock { .. }, AcceptAnswer::Failed(error)) => Accepting::Finished(
            Err(Failure::System { at: Step::AwaitingWriter, error }),
        ),
        (Accepting::Poll { .. }, AcceptAnswer::Accepted(stream)) => Accepting::Restore {
            accepted: Ok(stream),
        },
        (Accepting::Poll { timeout }, AcceptAnswer::WouldBlock { waited }) => if waited.nanos
            >= timeout.nanos {
            Accepting::Restore {
                accepted: Err(Failure::NoWriter { at: Step::Accepting, timeout }),
            }
        } else {
            Accepting::Nap { timeout, nap: nap_length() }
        },
        (Accepting::Poll { .. }, AcceptAnswer::Failed(error)) => Accepting::Restore {
            accepted: Err(Failure::System { at: Step::Accepting, error }),
        },
        (Accepting::Nap { timeout, .. }, AcceptAnswer::Done) => Accepting::Poll { timeout },
        (Accepting::Restore { accepted }, AcceptAnswer::Done) => match accepted {
            Ok(stream) => Accepting::Settle { stream },
            Err(failure) => Accepting::Finished(Err(failure)),
        },
        (Accepting::Restore { .. }, AcceptAnswer::Failed(error)) => Accepting::Finished(
            Err(Failure::System { at: Step::AwaitingWriter, error }),
        ),
        (Accepting::Settle { stream }, AcceptAnswer::Done) => Accepting::Finished(Ok(stream)),
        (Accepting::Settle { .. }, AcceptAnswer::Failed(error)) => Accepting::Finished(
            Err(Failure::System { at: Step::Settling, error }),
        ),
        (state, _) => state,
    }
}

impl<S, E> Accepting<S, E> {
    /// The accept of a listener, bounded by `timeout`; `None` waits for as
    /// long as it takes.
    pub fn accept_within(timeout: Option<Span>) -> (state: Self)
        ensures
            state == accept_start::<S, E>(timeout),
    {
        match timeout {
            None => Accepting::Accept,
            Some(timeout) => Accepting::Unblock { timeout },
        }
    }

    /// What to do after `answer`.
    pub fn next(self, answer: AcceptAnswer<S, E>) -> (state: Self)
        ensures
            state == accept_step(self, answer),
    {
        match (self, answer) {
            (Accepting::Accept, AcceptAnswer::Accepted(stream)) => Accepting::Finished(Ok(stream)),
            (Accepting::Accept, AcceptAnswer::Failed(error)) => Accepting::Finished(
                Err(Failure::System { at: Step::Accepting, error }),
            ),
            (Accepting::Unblock { timeout }, AcceptAnswer::Done) => Accepting::Poll { timeout },
            (Accepting::Unblock { .. }, AcceptAnswer::Failed(error)) => Accepting::Finished(
                Err(Failure::System { at: Step::AwaitingWriter, error }),
            ),
            (Accepting::Poll { .. }, AcceptAnswer::Accepted(stream)) => Accepting::Restore {
                accepted: Ok(stream),
            },
            (Accepting::Poll { timeout }, AcceptAnswer::WouldBlock { waited }) => {
                if waited.nanos >= timeout.nanos {
                    Accepting::Restore {
                        accepted: Err(Failure::NoWriter { at: Step::Accepting, timeout }),
                    }
                } else {
                    Accepting::Nap { timeout, nap: Span::from_millis(NAP_MILLIS) }
                }
            },
            (Accepting::Poll { .. }, AcceptAnswer::Failed(error)) => Accepting::Restore {
                accepted: Err(Failure::System { at: Step::Accepting, error }),
            },
            (Accepting::Nap { timeout, .. }, AcceptAnswer::Done) => Accepting::Poll { timeout },
            (Accepting::Restore { accepted }, AcceptAnswer::Done) => match accepted {
                Ok(stream) => Accepting::Settle { stream },
                Err(failure) => Accepting::Finished(Err(failure)),
            },
            (Accepting::Restore { .. }, AcceptAnswer::Failed(error)) => Accepting::Finished(
                Err(Failure::System { at: Step::AwaitingWriter, error }),
            ),
            (Accepting::Settle { stream }, AcceptAnswer::Done) => Accepting::Finished(Ok(stream)),
            (Accepting::Settle { .. }, AcceptAnswer::Failed(error)) => Accepting::Finished(
                Err(Failure::System { at: Step::Settling, error }),
            ),
            (state, _) => state,
        }
    }
}

} // verus!
