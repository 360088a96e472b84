//! Streams that arrive over a named pipe. One connection is one Stream.
//!
//! A named pipe is the oldest way two processes on one box hand each other
//! bytes: the receiver makes the pipe, the sender opens it by name, writes and
//! closes, and the kernel carries the bytes with no network stack between them.
//! On Windows it is the object under `\\.\pipe\`; on Unix it is a FIFO, a
//! special file. A Receive Location makes its pipe and takes one connection to
//! its end; a Send Location opens the pipe, writes the Stream and closes, which
//! is how the receiver knows the Stream is whole.
//!
//! The library touches no pipe itself. [`name`] says where a pipe is and what
//! its origin is called; [`pipe`] and [`transport`] decide, one action at a
//! time, what to do with it, and take the system's answer to each. [`laws`]
//! states what follows of the whole.
//!
//! The origin URI is the pipe's name: `pipe://./orders` on Windows for
//! `\\.\pipe\orders`, `pipe:///run/xmip/orders` for a FIFO. A send target is a
//! pipe name, an operating-system path, or `pipe://` and either.

pub mod failure;
pub mod host;
pub mod laws;
pub mod name;
pub mod path;
pub mod pipe;
pub mod text;
pub mod transport;

pub use crate::failure::{Failure, Report, Step};
pub use crate::host::{Host, Span, System};
pub use crate::name::{fresh_name, origin_of, target_path};
pub use crate::path::{PipePath, Unit};
pub use crate::pipe::Listener;
pub use crate::transport::{Arrived, Directions, FarEnd, NamedPipeTransport};
