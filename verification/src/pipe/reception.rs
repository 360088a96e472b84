//! Taking one Stream from a made pipe: wait for a writer in the system's own
//! way, then read what it writes to its end. Each state of [`Reception`] is the
//! one thing to do next; [`Reception::next`] takes the system's answer to it.

use vstd::prelude::*;

use crate::failure::{Failure, Step};
use crate::host::{Span, System};
use crate::path::Unit;
use crate::pipe::accepting::{accept_start, accept_step, AcceptAnswer, Accepting};
use crate::pipe::opening::{open_step, opening_begins, OpenAnswer, Opening};

verus! {

/// What to do next for a Stream. `S` is the connection, `E` the system's
/// error.
#[derive(Debug)]
pub enum Reception<S, E> {
    /// What the connection to a Windows pipe asks for.
    Accept(Accepting<S, E>),
    /// What the opening of a FIFO asks for.
    Open(Opening<S, E>),
    /// Read the connection to its end.
    Read { stream: S },
    /// Nothing: this is the result, and the connection is closed.
    Finished(Result<Vec<u8>, Failure<E>>),
}

/// What the system answered.
#[derive(Debug)]
pub enum ReceptionAnswer<S, E> {
    /// To what the connection asked for.
    Accept(AcceptAnswer<S, E>),
    /// To what the opening asked for.
    Open(OpenAnswer<S, E>),
    /// These are the bytes up to the end.
    Read(Vec<u8>),
    /// The connection could not be read.
    Failed(E),
}

/// Whether `state` is the first thing to do for a Stream from the pipe at
/// `path`.
pub open spec fn reception_begins<S, E>(
    state: Reception<S, E>,
    path: Seq<Unit>,
    system: System,
    timeout: Option<Span>,
) -> bool {
    match system {
        System::Windows => state == Reception::<S, E>::Accept(accept_start(timeout)),
        System::Unix => state matches Reception::Open(opening) && opening_begins(
            opening,
            path,
            timeout,
        ),
    }
}

/// What to do with a connection, or with the failure to get one.
pub open spec fn connected<S, E>(connection: Result<S, Failure<E>>) -> Reception<S, E> {
    match connection {
        Ok(stream) => Reception::Read { stream },
        Err(failure) => Reception::Finished(Err(failure)),
    }
}

/// What follows `state` when the system answers `answer` to it. An answer to
/// something else than what `state` asks for changes nothing.
pub open spec fn reception_step<S, E>(
    state: Reception<S, E>,
    answer: ReceptionAnswer<S, E>,
) -> Reception<S, E> {
    match (state, answer) {
        (Reception::Accept(accepting), ReceptionAnswer::Accept(answer)) => match accept_step(
            accepting,
            answer,
        ) {
            Accepting::Finished(connection) => connected(connection),
            accepting => Reception::Accept(accepting),
        },
        (Reception::Open(opening), ReceptionAnswer::Open(answer)) => match open_step(
            opening,
            answer,
        ) {
            Opening::Finished(connection) => connected(connection),
            opening => Reception::Open(opening),
        },
        (Reception::Read { .. }, ReceptionAnswer::Read(bytes)) => Reception::Finished(Ok(bytes)),
        (Reception::Read { .. }, ReceptionAnswer::Failed(error)) => Reception::Finished(
            Err(Failure::System { at: Step::Reading, error }),
        ),
        (state, _) => state,
    }
}

impl<S, E> Reception<S, E> {
    /// What to do after `answer`.
    pub fn next(self, answer: ReceptionAnswer<S, E>) -> (state: Self)
        ensures
            state == reception_step(self, answer),
            self is Read ==> (answer matches ReceptionAnswer::Read(bytes) ==> state
                == Reception::<S, E>::Finished(Ok(bytes))),
    {
        match (self, answer) {
            (Reception::Accept(accepting), ReceptionAnswer::Accept(answer)) => {
                match accepting.next(answer) {
                    Accepting::Finished(connection) => Self::with(connection),
                    accepting => Reception::Accept(accepting),
                }
            },
            (Reception::Open(opening), ReceptionAnswer::Open(answer)) => {
                match opening.next(answer) {
                    Opening::Finished(connection) => Self::with(connection),
                    opening => Reception::Open(opening),
                }
            },
            (Reception::Read { .. }, ReceptionAnswer::Read(bytes)) => Reception::Finished(
                Ok(bytes),
            ),
            (Reception::Read { .. }, ReceptionAnswer::Failed(error)) => Reception::Finished(
                Err(Failure::System { at: Step::Reading, error }),
            ),
            (state, _) => state,
        }
    }

    /// What to do with a connection, or with the failure to get one.
    fn with(connection: Result<S, Failure<E>>) -> (state: Self)
        ensures
            state == connected(connection),
    {
        match connection {
            Ok(stream) => Reception::Read { stream },
            Err(failure) => Reception::Finished(Err(failure)),
        }
    }
}

} // verus!
