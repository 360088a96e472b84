//! Making a pipe.
//!
//! On Windows the pipe is a kernel object, made in one call. On Unix it is a
//! FIFO, made unless something is at its path already: a FIFO that a previous
//! run left behind is reused. Each state of [`Creation`] is the one thing to do
//! next; [`Creation::next`] takes the system's answer to it.

use vstd::prelude::*;

use crate::failure::{Failure, Step};
use crate::host::System;
use crate::path::{PipePath, Unit};
use crate::pipe::Listener;

verus! {

/// The permissions of a FIFO: its owner reads and writes, nobody else does.
pub const FIFO_MODE: u32 = 0o600;

/// What to do next for a made pipe. `E` is the system's error.
#[derive(Debug)]
pub enum Creation<E> {
    /// See whether anything is at the path.
    Look { path: PipePath },
    /// Make a FIFO at the path, with the permissions `mode`.
    MakeFifo { path: PipePath, mode: u32 },
    /// Make the kernel object of that path.
    MakePipe { path: PipePath },
    /// Nothing: this is the result.
    Finished(Result<Listener, Failure<E>>),
}

/// What the system answered.
#[derive(Debug)]
pub enum CreateAnswer<E> {
    /// Whether something is at the path.
    Found(bool),
    /// The pipe was made.
    Made,
    /// The pipe could not be made.
    Failed(E),
}

/// Whether `state` is the first thing to do for a pipe at `path`.
pub open spec fn creation_begins<E>(state: Creation<E>, path: Seq<Unit>, system: System) -> bool {
    match system {
        System::Windows => state matches Creation::MakePipe { path: at } && at@ == path,
        System::Unix => state matches Creation::Look { path: at } && at@ == path,
    }
}

/// Whether `state` is the end of a creation that made, or found, the pipe at
/// `path`.
pub open spec fn created_at<E>(state: Creation<E>, path: Seq<Unit>) -> bool {
    state matches Creation::Finished(Ok(listener)) && listener@ == path
}

/// Whether `after` is what follows `state` when the system answers `answer` to
/// it. An answer to something else than what `state` asks for changes nothing.
pub open spec fn creation_follows<E>(
    state: Creation<E>,
    answer: CreateAnswer<E>,
    after: Creation<E>,
) -> bool {
    match (state, answer) {
        (Creation::Look { path }, CreateAnswer::Found(there)) => if there {
            created_at(after, path@)
        } else {
            after == (Creation::<E>::MakeFifo { path, mode: FIFO_MODE })
        },
        (Creation::MakeFifo { path, .. }, CreateAnswer::Made) => created_at(after, path@),
        (Creation::MakePipe { path }, CreateAnswer::Made) => created_at(after, path@),
        (Creation::MakeFifo { .. }, CreateAnswer::Failed(error)) => after
            == Creation::<E>::Finished(Err(Failure::System { at: Step::Creating, error })),
        (Creation::MakePipe { .. }, CreateAnswer::Failed(error)) => after
            == Creation::<E>::Finished(Err(Failure::System { at: Step::Creating, error })),
        _ => after == state,
    }
}

impl<E> Creation<E> {
    /// What to do after `answer`.
    pub fn next(self, answer: CreateAnswer<E>) -> (state: Self)
        ensures
            creation_follows(self, answer, state),
    {
        match (self, answer) {
            (Creation::Look { path }, CreateAnswer::Found(there)) => {
                if there {
                    Creation::Finished(Ok(Listener::at(path)))
                } else {
                    Creation::MakeFifo { path, mode: FIFO_MODE }
                }
            },
            (Creation::MakeFifo { path, .. }, CreateAnswer::Made) => Creation::Finished(
                Ok(Listener::at(path)),
            ),
            (Creation::MakePipe { path }, CreateAnswer::Made) => Creation::Finished(
                Ok(Listener::at(path)),
            ),
            (Creation::MakeFifo { .. }, CreateAnswer::Failed(error)) => Creation::Finished(
                Err(Failure::System { at: Step::Creating, error }),
            ),
            (Creation::MakePipe { .. }, CreateAnswer::Failed(error)) => Creation::Finished(
                Err(Failure::System { at: Step::Creating, error }),
            ),
            (state, _) => state,
        }
    }
}

} // verus!
