//! The transport: where a pipe is, how long it waits for a writer, and what is
//! done over it.

use vstd::prelude::*;

use crate::failure::{empty_stream_message, empty_stream_text, Failure};
use crate::host::{Host, Span, System};
use crate::name::{
    fresh_name, loopback_name, named_path, origin_of, origin_uri, path_of, pipe_path, target_path,
};
use crate::path::{displayed, PipePath, Unit};
use crate::pipe::accepting::Accepting;
use crate::pipe::creation::{creation_begins, creation_follows, CreateAnswer, Creation};
use crate::pipe::opening::Opening;
use crate::pipe::reception::{reception_begins, reception_step, Reception, ReceptionAnswer};
use crate::pipe::sending::{sending_begins, Sending};
use crate::pipe::{write_once, Listener};

verus! {

/// The ways a transport carries Streams.
#[derive(Clone, Copy, Debug, PartialEq, Eq, Structural)]
pub enum Directions {
    Receive,
    Send,
    Both,
}

/// A Stream that arrived, and where from.
#[derive(Debug, PartialEq, Eq)]
pub struct Arrived {
    pub origin_uri: String,
    pub bytes: Vec<u8>,
}

/// Streams that arrive over a named pipe. One connection is one Stream.
#[derive(Debug)]
pub struct NamedPipeTransport {
    path: PipePath,
    timeout: Option<Span>,
}

/// What the contracts say of a [`NamedPipeTransport`]: where its pipe is, and
/// how long it waits for a writer; `None` is as long as it takes.
pub struct TransportView {
    pub path: Seq<Unit>,
    pub timeout: Option<Span>,
}

impl View for NamedPipeTransport {
    type V = TransportView;

    closed spec fn view(&self) -> TransportView {
        TransportView { path: self.path@, timeout: self.timeout }
    }
}

/// A pipe of its own for one round on this machine, and the address a sender
/// reaches it by.
#[derive(Debug)]
pub struct FarEnd {
    pub address: String,
    pub transport: NamedPipeTransport,
}

/// What to do next for the Streams of one receive.
#[derive(Debug)]
pub enum Receiving<S, E> {
    /// What making the pipe asks for.
    Make(Creation<E>),
    /// What taking one connection from the made pipe asks for.
    Take { listener: Listener, reception: Reception<S, E> },
    /// Remove the file at `path`, whatever comes of that.
    Remove { path: PipePath, received: Result<Vec<Arrived>, Failure<E>> },
    /// Nothing: this is the result, and the pipe can go.
    Finished(Result<Vec<Arrived>, Failure<E>>),
}

/// What the system answered.
#[derive(Debug)]
pub enum ReceiveAnswer<S, E> {
    /// To what making the pipe asked for.
    Make(CreateAnswer<E>),
    /// To what taking the connection asked for.
    Take(ReceptionAnswer<S, E>),
    /// The removal was tried.
    Removed,
}

/// Whether a loopback refuses `payload`: on Windows a connection that writes
/// nothing and closes before the reader is waiting is one the pipe never saw.
pub open spec fn is_refused(payload: Seq<u8>, system: System) -> bool {
    system is Windows && payload.len() == 0
}

/// Whether `result` is what a connection that gave `read` is for a transport
/// over the pipe at `path`.
pub open spec fn arrived_from<E>(
    path: Seq<Unit>,
    read: Result<Vec<u8>, Failure<E>>,
    result: Result<Arrived, Failure<E>>,
) -> bool {
    match read {
        Ok(bytes) => result matches Ok(arrived) && arrived.origin_uri@ == origin_uri(path)
            && arrived.bytes == bytes,
        Err(failure) => result == Err::<Arrived, _>(failure),
    }
}

/// Whether `received` is what a receive over the pipe at `path` gives for its one
/// connection, which gave `read`: one Stream, or the failure.
pub open spec fn received_from<E>(
    path: Seq<Unit>,
    read: Result<Vec<u8>, Failure<E>>,
    received: Result<Vec<Arrived>, Failure<E>>,
) -> bool {
    match read {
        Ok(bytes) => received matches Ok(streams) && streams@.len() == 1 && arrived_from(
            path,
            read,
            Ok(streams@[0]),
        ),
        Err(failure) => received == Err::<Vec<Arrived>, _>(failure),
    }
}

/// Whether `after` is where a receive stands once making the pipe stands at
/// `creation`.
pub open spec fn made<S, E>(
    creation: Creation<E>,
    transport: TransportView,
    system: System,
    after: Receiving<S, E>,
) -> bool {
    match creation {
        Creation::Finished(Ok(listener)) => after matches Receiving::Take {
            listener: kept,
            reception,
        } && kept == listener && reception_begins(
            reception,
            listener@,
            system,
            transport.timeout,
        ),
        Creation::Finished(Err(failure)) => after == Receiving::<S, E>::Finished(Err(failure)),
        creation => after == Receiving::<S, E>::Make(creation),
    }
}

/// Whether `after` is where a receive stands once its one connection stands at
/// `reception`. A FIFO is removed before the receive ends, whatever the
/// connection came to; a Windows pipe goes with its last handle.
pub open spec fn taken<S, E>(
    listener: Listener,
    reception: Reception<S, E>,
    transport: TransportView,
    system: System,
    after: Receiving<S, E>,
) -> bool {
    match reception {
        Reception::Finished(read) => match system {
            System::Windows => after matches Receiving::Finished(received) && received_from(
                transport.path,
                read,
                received,
            ),
            System::Unix => after matches Receiving::Remove { path, received } && path@
                == listener@ && received_from(transport.path, read, received),
        },
        reception => after == (Receiving::<S, E>::Take { listener, reception }),
    }
}

/// Whether `after` is what follows `state` when the system answers `answer` to
/// it. An answer to something else than what `state` asks for changes nothing.
pub open spec fn receiving_follows<S, E>(
    state: Receiving<S, E>,
    answer: ReceiveAnswer<S, E>,
    transport: TransportView,
    system: System,
    after: Receiving<S, E>,
) -> bool {
    match (state, answer) {
        (Receiving::Make(creation), ReceiveAnswer::Make(answer)) => exists|next: Creation<E>|
            #[trigger] creation_follows(creation, answer, next) && made(
                next,
                transport,
                system,
                after,
            ),
        (Receiving::Take { listener, reception }, ReceiveAnswer::Take(answer)) => taken(
            listener,
            reception_step(reception, answer),
            transport,
            system,
            after,
        ),
        (Receiving::Remove { received, .. }, ReceiveAnswer::Removed) => after
            == Receiving::<S, E>::Finished(received),
        _ => after == state,
    }
}

impl NamedPipeTransport {
    /// The pipe called `name`: a bare name under `\\.\pipe\` on Windows and in
    /// the temporary directory on Unix, or a path as it is.
    #[must_use]
    pub fn new(name: &str, host: &Host) -> (transport: Self)
        ensures
            transport@.path == pipe_path(name@, host@),
            transport@.timeout is None,
    {
        NamedPipeTransport { path: path_of(name, host), timeout: None }
    }

    /// The same pipe, waiting at most `timeout` for a writer. Unset, a
    /// listening pipe waits for as long as it takes.
    #[must_use]
    pub fn timing_out_after(self, timeout: Span) -> (transport: Self)
        ensures
            transport@ == (TransportView { timeout: Some(timeout), ..self@ }),
    {
        NamedPipeTransport { path: self.path, timeout: Some(timeout) }
    }

    /// Where the pipe is.
    #[must_use]
    pub fn path(&self) -> (path: &PipePath)
        ensures
            path@ == self@.path,
    {
        &self.path
    }

    /// The origin every connection to this pipe shares.
    #[must_use]
    pub fn origin(&self) -> (origin: String)
        ensures
            origin@ == origin_uri(self@.path),
    {
        origin_of(&self.path)
    }

    /// Make the pipe, so a sender has something to open.
    pub fn bind<E>(&self, system: System) -> (state: Creation<E>)
        ensures
            creation_begins(state, self@.path, system),
    {
        Listener::create(&self.path, system)
    }

    /// Take one connection from an already-made pipe, to its end.
    pub fn accept_one<S, E>(&self, listener: &Listener, system: System) -> (state: Reception<S, E>)
        ensures
            reception_begins(state, listener@, system, self@.timeout),
            match (system, self@.timeout) {
                (System::Windows, None) => state == Reception::<S, E>::Accept(Accepting::Accept),
                (System::Windows, Some(limit)) => state == Reception::<S, E>::Accept(
                    Accepting::Unblock { timeout: limit },
                ),
                (System::Unix, None) => state matches Reception::Open(Opening::Open { path })
                    && path@ == listener@,
                (System::Unix, Some(limit)) => state matches Reception::Open(
                    Opening::Spawn { path, timeout },
                ) && path@ == listener@ && timeout == limit,
            },
    {
        listener.accept_one(system, self.timeout)
    }

    /// What one connection that gave `read` is: a Stream from this pipe.
    pub fn arrived<E>(&self, read: Result<Vec<u8>, Failure<E>>) -> (result: Result<
        Arrived,
        Failure<E>,
    >)
        ensures
            arrived_from(self@.path, read, result),
            match read {
                Ok(bytes) => result matches Ok(arrived) && arrived.bytes == bytes
                    && arrived.origin_uri@ == origin_uri(self@.path),
                Err(failure) => result == Err::<Arrived, _>(failure),
            },
    {
        match read {
            Ok(bytes) => Ok(Arrived { origin_uri: self.origin(), bytes }),
            Err(failure) => Err(failure),
        }
    }

    /// What this transport is called.
    #[must_use]
    pub fn name(&self) -> (name: &'static str)
        ensures
            name@ == "named-pipe"@,
    {
        "named-pipe"
    }

    /// A pipe carries Streams both ways.
    #[must_use]
    pub fn directions(&self) -> (directions: Directions)
        ensures
            directions == Directions::Both,
    {
        Directions::Both
    }

    /// The artefact a receiver claims before it takes it: none. One writer at
    /// a time is what the object already is.
    #[must_use]
    pub fn claims(&self) -> (claims: Option<String>)
        ensures
            claims is None,
    {
        None
    }

    /// Make the pipe, take one connection to its end, and leave no FIFO behind.
    pub fn receive<S, E>(&self, system: System) -> (state: Receiving<S, E>)
        ensures
            state matches Receiving::Make(creation) && creation_begins(
                creation,
                self@.path,
                system,
            ),
    {
        Receiving::Make(self.bind(system))
    }

    /// What to do for the Streams of a receive after `answer`.
    pub fn receive_next<S, E>(
        &self,
        state: Receiving<S, E>,
        answer: ReceiveAnswer<S, E>,
        system: System,
    ) -> (after: Receiving<S, E>)
        ensures
            receiving_follows(state, answer, self@, system, after),
    {
        match (state, answer) {
            (Receiving::Make(creation), ReceiveAnswer::Make(answer)) => {
                match creation.next(answer) {
                    Creation::Finished(Ok(listener)) => {
                        let reception = self.accept_one(&listener, system);
                        Receiving::Take { listener, reception }
                    },
                    Creation::Finished(Err(failure)) => Receiving::Finished(Err(failure)),
                    creation => Receiving::Make(creation),
                }
            },
            (Receiving::Take { listener, reception }, ReceiveAnswer::Take(answer)) => {
                match reception.next(answer) {
                    Reception::Finished(read) => {
                        let received = match self.arrived(read) {
                            Ok(arrived) => Ok(vec![arrived]),
                            Err(failure) => Err(failure),
                        };
                        match listener.leftover(system) {
                            Some(path) => Receiving::Remove { path: path.clone(), received },
                            None => Receiving::Finished(received),
                        }
                    },
                    reception => Receiving::Take { listener, reception },
                }
            },
            (Receiving::Remove { received, .. }, ReceiveAnswer::Removed) => {
                Receiving::Finished(received)
            },
            (state, _) => state,
        }
    }

    /// Open the pipe the target names, write the bytes, close.
    pub fn send<'a, S, E>(&self, target: &str, bytes: &'a [u8], host: &Host) -> (state: Sending<
        'a,
        S,
        E,
    >)
        ensures
            sending_begins(state, named_path(target@, host@), bytes@),
            state matches Sending::Connect { path, bytes: all } && path@ == named_path(
                target@,
                host@,
            ) && all@ == bytes@,
    {
        write_once(target_path(target, host), bytes)
    }

    /// Both ends on this machine: a pipe of the process's own, waiting at most
    /// `timeout` for a writer.
    #[must_use]
    pub fn loopback(process: u32, ticket: u32, timeout: Span, host: &Host) -> (transport: Self)
        ensures
            transport@.path == pipe_path(loopback_name(process, ticket), host@),
            transport@.timeout == Some(timeout),
    {
        NamedPipeTransport::new(fresh_name(process, ticket).as_str(), host).timing_out_after(
            timeout,
        )
    }

    /// A far end, to be made and then to wait for its one connection. Each has
    /// a fresh pipe, so rounds driven at once from several threads do not read
    /// each other's Stream; the address is the pipe's path as it is displayed.
    #[must_use]
    pub fn far_end(&self, process: u32, ticket: u32, host: &Host) -> (far: FarEnd)
        ensures
            far.transport@.path == pipe_path(loopback_name(process, ticket), host@),
            far.transport@.timeout is None,
            far.address@ == displayed(far.transport@.path),
    {
        let transport = NamedPipeTransport::new(fresh_name(process, ticket).as_str(), host);
        FarEnd { address: transport.path.display(), transport }
    }

    /// Why a loopback does not carry `payload`, where it does not: on Windows
    /// a Stream of nothing reaches only a reader already in its accept, and a
    /// loopback, whose two ends start together, declares it rather than racing
    /// for it.
    #[must_use]
    pub fn refuses(&self, payload: &[u8], system: System) -> (why: Option<String>)
        ensures
            why is Some <==> is_refused(payload@, system),
            why is Some <==> system == System::Windows && payload@.len() == 0,
            why matches Some(text) ==> text@ == empty_stream_message(),
    {
        match system {
            System::Windows if payload.len() == 0 => Some(empty_stream_text()),
            _ => None,
        }
    }

    /// The largest payload a loopback carries: there is none too large.
    #[must_use]
    pub fn ceiling(&self) -> (ceiling: Option<usize>)
        ensures
            ceiling is None,
    {
        None
    }

    /// Send `payload` to the far end at `address`, unless it is refused.
    pub fn send_to<'a, S, E>(&self, address: &str, payload: &'a [u8], host: &Host) -> (state:
        Sending<'a, S, E>)
        ensures
            if is_refused(payload@, host@.system) {
                state == Sending::<'a, S, E>::Finished(Err(Failure::EmptyStream))
            } else {
                sending_begins(state, named_path(address@, host@), payload@)
            },
            if host@.system == System::Windows && payload@.len() == 0 {
                state == Sending::<'a, S, E>::Finished(Err(Failure::EmptyStream))
            } else {
                state matches Sending::Connect { path, bytes } && path@ == named_path(
                    address@,
                    host@,
                ) && bytes@ == payload@
            },
    {
        if self.refuses(payload, host.system).is_some() {
            return Sending::Finished(Err(Failure::EmptyStream));
        }
        NamedPipeTransport::new(address, host).send(address, payload, host)
    }

    /// Let the far end at `address` go on without a Stream: open, write one
    /// byte, close. One byte rather than none, because a poke that writes
    /// nothing is, on Windows, a connection that never happened; the byte is
    /// the far end's to discard, and so is what comes of this.
    pub fn unblock<S, E>(&self, address: &str, host: &Host) -> (state: Sending<'static, S, E>)
        ensures
            sending_begins(state, named_path(address@, host@), seq![0u8]),
            state matches Sending::Connect { path, bytes } && path@ == named_path(address@, host@)
                && bytes@ == seq![0u8],
    {
        let poke: &'static [u8] = &[0];
        assert(poke@ =~= seq![0u8]);
        write_once(target_path(address, host), poke)
    }
}

} // verus!
