//! How a round over a pipe fails, and what is said of it.

use vstd::prelude::*;

use crate::host::Span;
use crate::text::{decimal, decimal_digits};

verus! {

/// What was being done to a pipe.
#[derive(Clone, Copy, Debug, PartialEq, Eq, Structural)]
pub enum Step {
    Creating,
    Accepting,
    AwaitingWriter,
    Settling,
    Opening,
    Reading,
    Connecting,
    Writing,
    Flushing,
}

impl Step {
    /// The step in words.
    pub open spec fn words(self) -> Seq<char> {
        match self {
            Step::Creating => "creating the pipe"@,
            Step::Accepting => "accepting a connection"@,
            Step::AwaitingWriter => "waiting for a writer"@,
            Step::Settling => "settling the accepted pipe"@,
            Step::Opening => "opening the pipe"@,
            Step::Reading => "reading the pipe"@,
            Step::Connecting => "connecting to the pipe"@,
            Step::Writing => "writing to the pipe"@,
            Step::Flushing => "flushing the pipe"@,
        }
    }

    /// The step in words.
    pub fn text(&self) -> (words: &'static str)
        ensures
            words@ == self.words(),
    {
        match self {
            Step::Creating => "creating the pipe",
            Step::Accepting => "accepting a connection",
            Step::AwaitingWriter => "waiting for a writer",
            Step::Settling => "settling the accepted pipe",
            Step::Opening => "opening the pipe",
            Step::Reading => "reading the pipe",
            Step::Connecting => "connecting to the pipe",
            Step::Writing => "writing to the pipe",
            Step::Flushing => "flushing the pipe",
        }
    }
}

/// Why a pipe gave no Stream, or took none. `E` is the system's own error.
#[derive(Debug)]
pub enum Failure<E> {
    /// The system failed at a step; how bad that is, the error itself says.
    System { at: Step, error: E },
    /// No writer came within the timeout. Worth another try.
    NoWriter { at: Step, timeout: Span },
    /// The thread that opens the pipe ended without an answer. Permanent.
    OpenerStopped,
    /// A Stream of nothing, which a Windows pipe would drop.
    EmptyStream,
}

/// A failure in the terms a transport reports it in.
#[derive(Debug)]
pub enum Report<E> {
    /// The system's error, to be judged by what it is.
    Classified { at: &'static str, error: E },
    /// Worth another try.
    Retryable { message: String, at: &'static str },
    /// Another try would fail alike.
    Permanent { message: String, at: &'static str },
    /// What was asked is not something the protocol carries.
    Protocol { message: String },
}

/// What is said where no writer came.
pub open spec fn no_writer_message(timeout: Span) -> Seq<char> {
    "no writer came within "@ + decimal_digits(timeout.millis()) + " ms"@
}

/// Why a Windows pipe refuses a Stream of nothing.
pub open spec fn empty_stream_message() -> Seq<char> {
    "a Stream of nothing: a Windows pipe drops a connection that writes nothing and closes before the reader is waiting"@
}

/// Why a Windows pipe refuses a Stream of nothing.
pub(crate) fn empty_stream_text() -> (message: String)
    ensures
        message@ == empty_stream_message(),
{
    "a Stream of nothing: a Windows pipe drops a connection that writes nothing and closes before the reader is waiting".to_owned()
}

impl<E> Failure<E> {
    /// The failure in the terms a transport reports it in.
    pub fn report(self) -> (report: Report<E>)
        ensures
            match self {
                Failure::System { at, error } => report matches Report::Classified {
                    at: words,
                    error: reported,
                } && words@ == at.words() && reported == error,
                Failure::NoWriter { at, timeout } => report matches Report::Retryable {
                    message,
                    at: words,
                } && words@ == at.words() && message@ == no_writer_message(timeout),
                Failure::OpenerStopped => report matches Report::Permanent { message, at: words }
                    && words@ == Step::Opening.words() && message@ == "the pipe's opener stopped"@,
                Failure::EmptyStream => report matches Report::Protocol { message } && message@
                    == empty_stream_message(),
            },
    {
        match self {
            Failure::System { at, error } => Report::Classified { at: at.text(), error },
            Failure::NoWriter { at, timeout } => {
                let mut message = "no writer came within ".to_owned();
                message.append(decimal(timeout.as_millis()).as_str());
                message.append(" ms");
                Report::Retryable { message, at: at.text() }
            },
            Failure::OpenerStopped => Report::Permanent {
                message: "the pipe's opener stopped".to_owned(),
                at: Step::Opening.text(),
            },
            Failure::EmptyStream => Report::Protocol { message: empty_stream_text() },
        }
    }
}

} // verus!
