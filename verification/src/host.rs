//! What the running system contributes to a pipe's name, and how long a wait
//! is, as plain values.

use vstd::prelude::*;

use crate::path::{PipePath, Unit};

verus! {

/// The kind of pipe a system has.
#[derive(Clone, Copy, Debug, PartialEq, Eq, Structural)]
pub enum System {
    /// A kernel object under `\\.\pipe\`.
    Windows,
    /// A FIFO: a special file on the file system.
    Unix,
}

/// The system a pipe is made on: its kind, and its directory for temporary
/// files.
#[derive(Debug)]
pub struct Host {
    pub system: System,
    pub temp_dir: PipePath,
}

/// What the contracts say of a [`Host`].
pub struct HostView {
    pub system: System,
    pub temp_dir: Seq<Unit>,
}

impl View for Host {
    type V = HostView;

    open spec fn view(&self) -> HostView {
        HostView { system: self.system, temp_dir: self.temp_dir@ }
    }
}

/// A length of time, in nanoseconds.
#[derive(Clone, Copy, Debug, PartialEq, Eq, Structural)]
pub struct Span {
    pub nanos: u128,
}

impl Span {
    /// The number of whole milliseconds.
    pub open spec fn millis(self) -> nat {
        self.nanos as nat / 1_000_000
    }

    /// A length of `millis` milliseconds.
    pub fn from_millis(millis: u64) -> (span: Span)
        ensures
            span.nanos == millis * 1_000_000,
            span.millis() == millis,
    {
        Span { nanos: millis as u128 * 1_000_000 }
    }

    /// The number of whole milliseconds.
    pub fn as_millis(&self) -> (millis: u128)
        ensures
            millis == self.millis(),
    {
        self.nanos / 1_000_000
    }
}

} // verus!
