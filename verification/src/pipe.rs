//! The operating system's pipe: made, waited on and connected to, on each
//! system in that system's way.
//!
//! On Windows a named pipe is a kernel object under `\\.\pipe\`, created by one
//! process and connected to by another, and one instance carries one
//! connection. On Unix a named pipe is a FIFO: a special file that a reader
//! opens and a writer opens, and the kernel joins the two. Both are one Stream
//! per connection here: the writer closes, the reader sees the end.
//!
//! What has to be done, and in which order, is decided here, one action at a
//! time; the caller performs each action and hands back what the system
//! answered.

use vstd::prelude::*;

use crate::host::{Span, System};
use crate::path::{PipePath, Unit};
use crate::pipe::accepting::Accepting;
use crate::pipe::creation::{creation_begins, Creation};
use crate::pipe::opening::Opening;
use crate::pipe::reception::{reception_begins, Reception};
use crate::pipe::sending::{sending_begins, Sending};

pub use crate::name::path_of;

pub mod accepting;
pub mod creation;
pub mod opening;
pub mod reception;
pub mod sending;

verus! {

/// The made end, waiting for a connection.
#[derive(Debug)]
pub struct Listener {
    path: PipePath,
}

impl View for Listener {
    type V = Seq<Unit>;

    /// Where the pipe is.
    closed spec fn view(&self) -> Seq<Unit> {
        self.path@
    }
}

impl Listener {
    /// The end of the pipe made at `path`.
    pub(crate) fn at(path: PipePath) -> (listener: Listener)
        ensures
            listener@ == path@,
    {
        Listener { path }
    }

    /// Make the pipe at `path`.
    pub fn create<E>(path: &PipePath, system: System) -> (state: Creation<E>)
        ensures
            creation_begins(state, path@, system),
            match system {
                System::Windows => state matches Creation::MakePipe { path: at } && at@ == path@,
                System::Unix => state matches Creation::Look { path: at } && at@ == path@,
            },
    {
        let path = path.clone();
        match system {
            System::Windows => Creation::MakePipe { path },
            System::Unix => Creation::Look { path },
        }
    }

    /// Where the pipe is.
    #[must_use]
    pub fn path(&self) -> (path: &PipePath)
        ensures
            path@ == self@,
    {
        &self.path
    }

    /// The file to remove when the pipe is no longer wanted: a FIFO's. A
    /// Windows pipe goes with its last handle.
    #[must_use]
    pub fn leftover(&self, system: System) -> (file: Option<&PipePath>)
        ensures
            match system {
                System::Windows => file is None,
                System::Unix => file matches Some(path) && path@ == self@,
            },
    {
        match system {
            System::Windows => None,
            System::Unix => Some(&self.path),
        }
    }

    /// Wait for one writer within `timeout`, and read what it writes to its
    /// end. `None` waits for as long as it takes, which is what a listening
    /// Receive Location does.
    pub fn accept_one<S, E>(&self, system: System, timeout: Option<Span>) -> (state: Reception<
        S,
        E,
    >)
        ensures
            reception_begins(state, self@, system, timeout),
            match (system, timeout) {
                (System::Windows, None) => state == Reception::<S, E>::Accept(Accepting::Accept),
                (System::Windows, Some(limit)) => state == Reception::<S, E>::Accept(
                    Accepting::Unblock { timeout: limit },
                ),
                (System::Unix, None) => state matches Reception::Open(Opening::Open { path })
                    && path@ == self@,
                (System::Unix, Some(limit)) => state matches Reception::Open(
                    Opening::Spawn { path, timeout: kept },
                ) && path@ == self@ && kept == limit,
            },
    {
        match system {
            System::Windows => Reception::Accept(Accepting::accept_within(timeout)),
            System::Unix => Reception::Open(Opening::open_within(self.path.clone(), timeout)),
        }
    }
}

/// Connect to the pipe at `path`, write `bytes` and close, which is what tells
/// the reader the Stream is whole.
pub fn write_once<'a, S, E>(path: PipePath, bytes: &'a [u8]) -> (state: Sending<'a, S, E>)
    ensures
        sending_begins(state, path@, bytes@),
        state matches Sending::Connect { path: at, bytes: all } && at@ == path@ && all@ == bytes@,
{
    Sending::Connect { path, bytes }
}

} // verus!
