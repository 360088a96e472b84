//! Sending one Stream over a pipe: connect, write it all, flush, close. The
//! close is what tells the reader that the Stream is whole. Each state of
//! [`Sending`] is the one thing to do next; [`Sending::next`] takes the
//! system's answer to it.

use vstd::prelude::*;

use crate::failure::{Failure, Step};
use crate::path::{PipePath, Unit};

verus! {

/// What to do next for a sent Stream. `S` is the connection, which closes when
/// it is dropped, and `E` the system's error.
#[derive(Debug)]
pub enum Sending<'a, S, E> {
    /// Connect to the pipe at `path`, for writing.
    Connect { path: PipePath, bytes: &'a [u8] },
    /// Write all of `bytes` to the connection.
    Write { stream: S, bytes: &'a [u8] },
    /// Flush the connection.
    Flush { stream: S },
    /// Nothing: this is the result, and the connection is closed.
    Finished(Result<(), Failure<E>>),
}

/// What the system answered.
#[derive(Debug)]
pub enum SendAnswer<S, E> {
    /// Here is the connection.
    Connected(S),
    /// It was done.
    Done,
    /// It failed.
    Failed(E),
}

/// Whether `state` is the first thing to do to send `bytes` over the pipe at
/// `path`.
pub open spec fn sending_begins<S, E>(
    state: Sending<S, E>,
    path: Seq<Unit>,
    bytes: Seq<u8>,
) -> bool {
    state matches Sending::Connect { path: at, bytes: all } && at@ == path && all@ == bytes
}

/// What follows `state` when the system answers `answer` to it. An answer to
/// something else than what `state` asks for changes nothing.
pub open spec fn send_step<'a, S, E>(
    state: Sending<'a, S, E>,
    answer: SendAnswer<S, E>,
) -> Sending<'a, S, E> {
    match (state, answer) {
        (Sending::Connect { bytes, .. }, SendAnswer::Connected(stream)) => Sending::Write {
            stream,
            bytes,
        },
        (Sending::Connect { .. }, SendAnswer::Failed(error)) => Sending::Finished(
            Err(Failure::System { at: Step::Connecting, error }),
        ),
        (Sending::Write { stream, .. }, SendAnswer::Done) => Sending::Flush { stream },
        (Sending::Write { .. }, SendAnswer::Failed(error)) => Sending::Finished(
            Err(Failure::System { at: Step::Writing, error }),
        ),
        (Sending::Flush { .. }, SendAnswer::Done) => Sending::Finished(Ok(())),
        (Sending::Flush { .. }, SendAnswer::Failed(error)) => Sending::Finished(
            Err(Failure::System { at: Step::Flushing, error }),
        ),
        (state, _) => state,
    }
}

impl<'a, S, E> Sending<'a, S, E> {
    /// What to do after `answer`.
    pub fn next(self, answer: SendAnswer<S, E>) -> (state: Self)
        ensures
            state == send_step(self, answer),
    {
        match (self, answer) {
            (Sending::Connect { bytes, .. }, SendAnswer::Connected(stream)) => Sending::Write {
                stream,
                bytes,
            },
            (Sending::Connect { .. }, SendAnswer::Failed(error)) => Sending::Finished(
                Err(Failure::System { at: Step::Connecting, error }),
            ),
            (Sending::Write { stream, .. }, SendAnswer::Done) => Sending::Flush { stream },
            (Sending::Write { .. }, SendAnswer::Failed(error)) => Sending::Finished(
                Err(Failure::System { at: Step::Writing, error }),
            ),
            (Sending::Flush { .. }, SendAnswer::Done) => Sending::Finished(Ok(())),
            (Sending::Flush { .. }, SendAnswer::Failed(error)) => Sending::Finished(
                Err(Failure::System { at: Step::Flushing, error }),
            ),
            (state, _) => state,
        }
    }
}

} // verus!
