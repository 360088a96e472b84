//! Opening a FIFO for reading, within a timeout.
//!
//! A FIFO's open for reading blocks until a writer opens the other end, so
//! under a timeout it happens on a thread of its own, and that thread is waited
//! for. When the time is up the blocked open is released by opening the other
//! end for writing and closing it, so no thread is left behind. Each state of
//! [`Opening`] is the one thing to do next; [`Opening::next`] takes the
//! system's answer to it.

use vstd::prelude::*;

use crate::failure::{Failure, Step};
use crate::host::Span;
use crate::path::{PipePath, Unit};

verus! {

/// What to do next for an open FIFO. `S` is the open file, `E` the system's
/// error.
#[derive(Debug)]
pub enum Opening<S, E> {
    /// Open the FIFO at `path` for reading, for as long as it takes.
    Open { path: PipePath },
    /// Start a thread that opens the FIFO at `path` for reading.
    Spawn { path: PipePath, timeout: Span },
    /// Wait for what the thread has to say, at most for the timeout.
    Wait { path: PipePath, timeout: Span },
    /// Open the FIFO at `path` for writing and close it, whatever comes of
    /// that.
    Release { path: PipePath, timeout: Span },
    /// Join the thread.
    Join { opened: Result<S, Failure<E>> },
    /// Nothing: this is the result.
    Finished(Result<S, Failure<E>>),
}

/// What the system answered.
#[derive(Debug)]
pub enum OpenAnswer<S, E> {
    /// The FIFO is open.
    Opened(S),
    /// The FIFO could not be opened.
    Failed(E),
    /// The time is up, and the thread has said nothing.
    TimedOut,
    /// The thread ended, and has said nothing.
    Stopped,
    /// It was done.
    Done,
}

/// The first thing to do: open for as long as it takes where there is no
/// timeout, and open on a thread where there is one.
pub open spec fn open_start<S, E>(path: PipePath, timeout: Option<Span>) -> Opening<S, E> {
    match timeout {
        None => Opening::Open { path },
        Some(timeout) => Opening::Spawn { path, timeout },
    }
}

/// Whether `state` is the first thing to do for the FIFO at `path`.
pub open spec fn opening_begins<S, E>(
    state: Opening<S, E>,
    path: Seq<Unit>,
    timeout: Option<Span>,
) -> bool {
    match timeout {
        None => state matches Opening::Open { path: at } && at@ == path,
        Some(limit) => state matches Opening::Spawn { path: at, timeout } && at@ == path && timeout
            == limit,
    }
}

/// What follows `state` when the system answers `answer` to it. An answer to
/// something else than what `state` asks for changes nothing.
pub open spec fn open_step<S, E>(state: Opening<S, E>, answer: OpenAnswer<S, E>) -> Opening<S, E> {
    match (state, answer) {
        (Opening::Open { .. }, OpenAnswer::Opened(stream)) => Opening::Finished(Ok(stream)),
        (Opening::Open { .. }, OpenAnswer::Failed(error)) => Opening::Finished(
            Err(Failure::System { at: Step::Opening, error }),
        ),
        (Opening::Spawn { path, timeout }, OpenAnswer::Done) => Opening::Wait { path, timeout },
        (Opening::Wait { .. }, OpenAnswer::Opened(stream)) => Opening::Join { opened: Ok(stream) },
        (Opening::Wait { .. }, OpenAnswer::Failed(error)) => Opening::Join {
            opened: Err(Failure::System { at: Step::Opening, error }),
        },
        (Opening::Wait { path, timeout }, OpenAnswer::TimedOut) => Opening::Release {
            path,
            timeout,
        },
        (Opening::Wait { .. }, OpenAnswer::Stopped) => Opening::Join {
            opened: Err(Failure::OpenerStopped),
        },
        (Opening::Release { timeout, .. }, OpenAnswer::Done) => Opening::Join {
            opened: Err(Failure::NoWriter { at: Step::Opening, timeout }),
        },
        (Opening::Join { opened }, OpenAnswer::Done) => Opening::Finished(opened),
        (state, _) => state,
    }
}

impl<S, E> Opening<S, E> {
    /// The FIFO at `path` opened for reading within `timeout`; `None` waits for
    /// a writer for as long as it takes.
    pub fn open_within(path: PipePath, timeout: Option<Span>) -> (state: Self)
        ensures
            state == open_start::<S, E>(path, timeout),
    {
        match timeout {
            None => Opening::Open { path },
            Some(timeout) => Opening::Spawn { path, timeout },
        }
    }

    /// What to do after `answer`.
    pub fn next(self, answer: OpenAnswer<S, E>) -> (state: Self)
        ensures
            state == open_step(self, answer),
    {
        match (self, answer) {
            (Opening::Open { .. }, OpenAnswer::Opened(stream)) => Opening::Finished(Ok(stream)),
            (Opening::Open { .. }, OpenAnswer::Failed(error)) => Opening::Finished(
                Err(Failure::System { at: Step::Opening, error }),
            ),
            (Opening::Spawn { path, timeout }, OpenAnswer::Done) => Opening::Wait { path, timeout },
            (Opening::Wait { .. }, OpenAnswer::Opened(stream)) => Opening::Join {
                opened: Ok(stream),
            },
            (Opening::Wait { .. }, OpenAnswer::Failed(error)) => Opening::Join {
                opened: Err(Failure::System { at: Step::Opening, error }),
            },
            (Opening::Wait { path, timeout }, OpenAnswer::TimedOut) => Opening::Release {
                path,
                timeout,
            },
            (Opening::Wait { .. }, OpenAnswer::Stopped) => Opening::Join {
                opened: Err(Failure::OpenerStopped),
            },
            (Opening::Release { timeout, .. }, OpenAnswer::Done) => Opening::Join {
                opened: Err(Failure::NoWriter { at: Step::Opening, timeout }),
            },
            (Opening::Join { opened }, OpenAnswer::Done) => Opening::Finished(opened),
            (state, _) => state,
        }
    }
}

} // verus!
