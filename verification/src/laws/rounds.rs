//! Laws of rounds over a pipe: where a send goes, what a receive gives and when,
//! and what a loopback refuses.

use vstd::prelude::*;

use crate::failure::{Failure, Step};
use crate::host::{HostView, Span, System};
use crate::laws::names::{law_path_stays, law_scheme_is_optional};
use crate::laws::places::{law_path_is_kept, law_target_names_its_pipe, law_target_of_a_path};
use crate::name::{named_path, origin_uri, pipe_path};
use crate::path::{displayed, is_text, Unit};
use crate::pipe::accepting::{AcceptAnswer, Accepting};
use crate::pipe::creation::{creation_begins, CreateAnswer, Creation};
use crate::pipe::opening::{OpenAnswer, Opening};
use crate::pipe::reception::{reception_step, Reception, ReceptionAnswer};
use crate::pipe::sending::{sending_begins, Sending};
use crate::pipe::Listener;
use crate::transport::{
    arrived_from, is_refused, receiving_follows, Arrived, ReceiveAnswer, Receiving, TransportView,
};

verus! {

/// A payload with anything in it is never refused, and on Unix none is; the
/// empty payload on Windows is.
pub proof fn law_only_nothing_on_windows_is_refused(payload: Seq<u8>, system: System)
    ensures
        payload.len() > 0 ==> !is_refused(payload, system),
        system == System::Unix ==> !is_refused(payload, system),
        system == System::Windows && payload.len() == 0 ==> is_refused(payload, system),
{
}

/// What a loopback sends to an address, where the payload has anything in it or
/// the system is Unix, begins with a connect to the path that the address names,
/// with all of the payload; only the empty payload on Windows ends at once, as
/// a Stream of nothing.
pub proof fn law_loopback_sends_all_but_nothing_on_windows<S, E>(
    state: Sending<S, E>,
    address: Seq<char>,
    payload: Seq<u8>,
    host: HostView,
)
    requires
        if is_refused(payload, host.system) {
            state == Sending::<S, E>::Finished(Err(Failure::EmptyStream))
        } else {
            sending_begins(state, named_path(address, host), payload)
        },
    ensures
        payload.len() > 0 || host.system == System::Unix ==> (state matches Sending::Connect {
            path,
            bytes,
        } && path@ == named_path(address, host) && bytes@ == payload),
        payload.len() == 0 && host.system == System::Windows ==> state == Sending::<
            S,
            E,
        >::Finished(Err(Failure::EmptyStream)),
{
}

/// A send to a path, with or without `pipe://` before it, connects to that very
/// path, piece for piece, with all of the bytes.
pub proof fn law_send_goes_to_its_path<S, E>(
    plain: Sending<S, E>,
    schemed: Sending<S, E>,
    path: Seq<char>,
    host: HostView,
    bytes: Seq<u8>,
    at: int,
)
    requires
        0 <= at < path.len(),
        path[at] == '/' || path[at] == '\\',
        path.len() < 7 || path.take(7) != "pipe://"@,
        sending_begins(plain, named_path(path, host), bytes),
        sending_begins(schemed, named_path("pipe://"@ + path, host), bytes),
    ensures
        plain matches Sending::Connect { path: to, bytes: all } && all@ == bytes && to@.len()
            == path.len() && forall|i: int|
            0 <= i < path.len() ==> #[trigger] to@[i] == Unit::Char(path[i]),
        schemed matches Sending::Connect { path: to, bytes: all } && all@ == bytes && to@.len()
            == path.len() && forall|i: int|
            0 <= i < path.len() ==> #[trigger] to@[i] == Unit::Char(path[i]),
{
    law_target_names_its_pipe(path, host);
    law_path_is_kept(path, host, at);
    law_target_of_a_path(path, host, at);
}

/// A send to whatever target connects to the path that the target names, with
/// all of the bytes.
pub proof fn law_send_goes_to_its_target<S, E>(
    state: Sending<S, E>,
    target: Seq<char>,
    host: HostView,
    bytes: Seq<u8>,
)
    requires
        sending_begins(state, named_path(target, host), bytes),
    ensures
        state matches Sending::Connect { path, bytes: all } && path@ == named_path(target, host)
            && all@ == bytes,
{
}

/// A send to a transport's path, as text, connects to the very path at which the
/// transport's pipe is looked for and made, whether `pipe://` stands before it or
/// not.
pub proof fn law_send_meets_the_receiver<S, E>(
    plain: Sending<S, E>,
    schemed: Sending<S, E>,
    making: Creation<E>,
    name: Seq<char>,
    text: Seq<char>,
    host: HostView,
    bytes: Seq<u8>,
)
    requires
        text.len() == pipe_path(name, host).len(),
        forall|i: int|
            0 <= i < text.len() ==> #[trigger] pipe_path(name, host)[i] == Unit::Char(text[i]),
        text.len() < 7 || text.take(7) != "pipe://"@,
        sending_begins(plain, named_path(text, host), bytes),
        sending_begins(schemed, named_path("pipe://"@ + text, host), bytes),
        creation_begins(making, pipe_path(name, host), host.system),
    ensures
        ({
            let made = match making {
                Creation::Look { path } => path@,
                Creation::MakePipe { path } => path@,
                _ => Seq::empty(),
            };
            &&& making is Look || making is MakePipe
            &&& made == pipe_path(name, host)
            &&& plain matches Sending::Connect { path, .. } && path@ == made
            &&& schemed matches Sending::Connect { path, .. } && path@ == made
        }),
{
    let path = pipe_path(name, host);
    assert(is_text(path)) by {
        assert forall|i: int| 0 <= i < path.len() implies #[trigger] path[i] is Char by {
            assert(path[i] == Unit::Char(text[i]));
        }
    }
    assert(displayed(path) =~= text);
    law_path_stays(name, host);
    law_target_names_its_pipe(text, host);
    law_scheme_is_optional(text, host);
}

/// A connection that gave bytes is a Stream of those bytes from the pipe's
/// origin, and a failure stays what it is.
pub proof fn law_arrived_stream_is_what_was_read<E>(
    path: Seq<Unit>,
    bytes: Vec<u8>,
    failure: Failure<E>,
    arrived: Result<Arrived, Failure<E>>,
    failed: Result<Arrived, Failure<E>>,
)
    requires
        arrived_from(path, Ok::<_, Failure<E>>(bytes), arrived),
        arrived_from(path, Err::<Vec<u8>, _>(failure), failed),
    ensures
        arrived matches Ok(stream) && stream.bytes == bytes && stream.origin_uri@ == origin_uri(
            path,
        ),
        failed == Err::<Arrived, _>(failure),
{
}

/// Every action of a receive is on the transport's own pipe, and every wait is
/// under the transport's own timeout: with a timeout no wait is without a limit,
/// and each carries exactly that one; without a timeout the wait is one that
/// blocks, and none fails for want of a writer.
pub proof fn law_receive_keeps_its_pipe_and_its_timeout<S, E>(
    states: Seq<Receiving<S, E>>,
    answers: Seq<ReceiveAnswer<S, E>>,
    transport: TransportView,
    system: System,
    i: int,
)
    requires
        states.len() == answers.len() + 1,
        states[0] matches Receiving::Make(creation) && creation_begins(
            creation,
            transport.path,
            system,
        ),
        forall|k: int|
            0 <= k < answers.len() ==> receiving_follows(
                #[trigger] states[k],
                answers[k],
                transport,
                system,
                states[k + 1],
            ),
        0 <= i < states.len(),
    ensures
        match states[i] {
            Receiving::Make(creation) => match creation {
                Creation::Look { path } => system == System::Unix && path@ == transport.path,
                Creation::MakeFifo { path, mode } => system == System::Unix && path@
                    == transport.path && mode == 0o600,
                Creation::MakePipe { path } => system == System::Windows && path@
                    == transport.path,
                Creation::Finished(_) => false,
            },
            Receiving::Take { listener, reception } => listener@ == transport.path
                && match reception {
                Reception::Accept(wait) => system == System::Windows && match wait {
                    Accepting::Accept => transport.timeout is None,
                    Accepting::Unblock { timeout } => transport.timeout == Some(timeout),
                    Accepting::Poll { timeout } => transport.timeout == Some(timeout),
                    Accepting::Nap { timeout, nap } => transport.timeout == Some(timeout)
                        && nap.nanos == 2_000_000,
                    Accepting::Restore { accepted } => transport.timeout is Some && (
                    accepted matches Err(Failure::NoWriter { timeout, .. }) ==> transport.timeout
                        == Some(timeout)),
                    Accepting::Settle { .. } => transport.timeout is Some,
                    Accepting::Finished(_) => false,
                },
                Reception::Open(wait) => system == System::Unix && match wait {
                    Opening::Open { path } => transport.timeout is None && path@
                        == transport.path,
                    Opening::Spawn { path, timeout } => transport.timeout == Some(timeout)
                        && path@ == transport.path,
                    Opening::Wait { path, timeout } => transport.timeout == Some(timeout) && path@
                        == transport.path,
                    Opening::Release { path, timeout } => transport.timeout == Some(timeout)
                        && path@ == transport.path,
                    Opening::Join { opened } => transport.timeout is Some && (opened matches Err(
                        Failure::NoWriter { timeout, .. },
                    ) ==> transport.timeout == Some(timeout)),
                    Opening::Finished(_) => false,
                },
                Reception::Read { .. } => true,
                Reception::Finished(_) => false,
            },
            Receiving::Remove { path, received } => system == System::Unix && path@
                == transport.path && (received matches Err(Failure::NoWriter { timeout, .. })
                ==> transport.timeout == Some(timeout)),
            Receiving::Finished(received) => received matches Err(
                Failure::NoWriter { timeout, .. },
            ) ==> transport.timeout == Some(timeout),
        },
    decreases i,
{
    if i > 0 {
        law_receive_keeps_its_pipe_and_its_timeout(states, answers, transport, system, i - 1);
        assert(receiving_follows(
            states[i - 1],
            answers[i - 1],
            transport,
            system,
            states[(i - 1) + 1],
        ));
    }
}

/// A receive whose connection is read ends with one Stream, of exactly the bytes
/// that were read and with the pipe's origin, whatever the bytes and however
/// many; on Unix the pipe's file is removed first.
pub proof fn law_read_stream_is_received<S, E>(
    transport: TransportView,
    listener: Listener,
    stream: S,
    bytes: Vec<u8>,
    on_windows: Receiving<S, E>,
    on_unix: Receiving<S, E>,
    removed: Receiving<S, E>,
)
    requires
        receiving_follows(
            Receiving::Take { listener, reception: Reception::Read { stream } },
            ReceiveAnswer::Take(ReceptionAnswer::Read(bytes)),
            transport,
            System::Windows,
            on_windows,
        ),
        receiving_follows(
            Receiving::Take { listener, reception: Reception::Read { stream } },
            ReceiveAnswer::Take(ReceptionAnswer::Read(bytes)),
            transport,
            System::Unix,
            on_unix,
        ),
        receiving_follows(on_unix, ReceiveAnswer::Removed, transport, System::Unix, removed),
    ensures
        on_windows matches Receiving::Finished(Ok(streams)) && streams@.len() == 1
            && streams@[0].bytes == bytes && streams@[0].origin_uri@ == origin_uri(
            transport.path,
        ),
        on_unix matches Receiving::Remove { path, .. } && path@ == listener@,
        removed matches Receiving::Finished(Ok(streams)) && streams@.len() == 1
            && streams@[0].bytes == bytes && streams@[0].origin_uri@ == origin_uri(
            transport.path,
        ),
{
}

/// A receive goes through its one reception answer by answer, and a failure of
/// the reception is the receive's own; on Unix the pipe's file is removed first.
pub proof fn law_receive_goes_through_its_reception<S, E>(
    transport: TransportView,
    system: System,
    listener: Listener,
    reception: Reception<S, E>,
    answer: ReceptionAnswer<S, E>,
    after: Receiving<S, E>,
    removed: Receiving<S, E>,
)
    requires
        receiving_follows(
            Receiving::Take { listener, reception },
            ReceiveAnswer::Take(answer),
            transport,
            system,
            after,
        ),
        receiving_follows(after, ReceiveAnswer::Removed, transport, system, removed),
    ensures
        !(reception_step(reception, answer) is Finished) ==> after == (Receiving::<S, E>::Take {
            listener,
            reception: reception_step(reception, answer),
        }),
        reception_step(reception, answer) matches Reception::Finished(Err(failure)) ==> {
            &&& system == System::Windows ==> after == Receiving::<S, E>::Finished(Err(failure))
            &&& system == System::Unix ==> (after matches Receiving::Remove { path, received }
                && path@ == listener@ && received == Err::<Vec<Arrived>, _>(failure))
            &&& removed == Receiving::<S, E>::Finished(Err(failure))
        },
{
}

/// An answer that is none to what a receive asks for changes nothing, and a
/// result stays.
pub proof fn law_receive_hears_only_its_answers<S, E>(
    state: Receiving<S, E>,
    answer: ReceiveAnswer<S, E>,
    transport: TransportView,
    system: System,
    after: Receiving<S, E>,
)
    requires
        receiving_follows(state, answer, transport, system, after),
        match state {
            Receiving::Make(_) => !(answer is Make),
            Receiving::Take { .. } => !(answer is Take),
            Receiving::Remove { .. } => !(answer is Removed),
            Receiving::Finished(_) => true,
        },
    ensures
        after == state,
{
}

/// A receive on Unix whose FIFO is found or made, and whose one connection comes
/// and is read, ends with exactly that Stream, with a timeout as without one.
pub proof fn law_fifo_receive_succeeds<S, E>(
    states: Seq<Receiving<S, E>>,
    answers: Seq<ReceiveAnswer<S, E>>,
    transport: TransportView,
    there: bool,
    stream: S,
    bytes: Vec<u8>,
)
    requires
        states.len() == answers.len() + 1,
        states[0] matches Receiving::Make(creation) && creation_begins(
            creation,
            transport.path,
            System::Unix,
        ),
        forall|k: int|
            0 <= k < answers.len() ==> receiving_follows(
                #[trigger] states[k],
                answers[k],
                transport,
                System::Unix,
                states[k + 1],
            ),
        ({
            let n: int = if there { 1 } else { 2 };
            &&& answers.len() == n + (if transport.timeout is Some { 5int } else { 3int })
            &&& answers[0] == ReceiveAnswer::<S, E>::Make(CreateAnswer::Found(there))
            &&& !there ==> answers[1] == ReceiveAnswer::<S, E>::Make(CreateAnswer::Made)
            &&& transport.timeout is None ==> {
                &&& answers[n] == ReceiveAnswer::<S, E>::Take(
                    ReceptionAnswer::Open(OpenAnswer::Opened(stream)),
                )
                &&& answers[n + 1] == ReceiveAnswer::<S, E>::Take(ReceptionAnswer::Read(bytes))
                &&& answers[n + 2] == ReceiveAnswer::<S, E>::Removed
            }
            &&& transport.timeout is Some ==> {
                &&& answers[n] == ReceiveAnswer::<S, E>::Take(
                    ReceptionAnswer::Open(OpenAnswer::Done),
                )
                &&& answers[n + 1] == ReceiveAnswer::<S, E>::Take(
                    ReceptionAnswer::Open(OpenAnswer::Opened(stream)),
                )
                &&& answers[n + 2] == ReceiveAnswer::<S, E>::Take(
                    ReceptionAnswer::Open(OpenAnswer::Done),
                )
                &&& answers[n + 3] == ReceiveAnswer::<S, E>::Take(ReceptionAnswer::Read(bytes))
                &&& answers[n + 4] == ReceiveAnswer::<S, E>::Removed
            }
        }),
    ensures
        states[states.len() - 1] matches Receiving::Finished(Ok(streams)) && streams@.len() == 1
            && streams@[0].bytes == bytes && streams@[0].origin_uri@ == origin_uri(
            transport.path,
        ),
{
    let n: int = if there { 1 } else { 2 };
    assert(receiving_follows(states[0], answers[0], transport, System::Unix, states[0int + 1]));
    if !there {
        assert(receiving_follows(states[1], answers[1], transport, System::Unix, states[1int + 1]));
    }
    assert(states[n] is Take);
    assert(receiving_follows(states[n], answers[n], transport, System::Unix, states[n + 1]));
    assert(receiving_follows(
        states[n + 1],
        answers[n + 1],
        transport,
        System::Unix,
        states[(n + 1) + 1],
    ));
    assert(receiving_follows(
        states[n + 2],
        answers[n + 2],
        transport,
        System::Unix,
        states[(n + 2) + 1],
    ));
    if transport.timeout is Some {
        assert(receiving_follows(
            states[n + 3],
            answers[n + 3],
            transport,
            System::Unix,
            states[(n + 3) + 1],
        ));
        assert(receiving_follows(
            states[n + 4],
            answers[n + 4],
            transport,
            System::Unix,
            states[(n + 4) + 1],
        ));
    }
}

/// A receive on Windows whose pipe is made, and whose one connection comes and is
/// read, ends with exactly that Stream, with a timeout as without one.
pub proof fn law_windows_receive_succeeds<S, E>(
    states: Seq<Receiving<S, E>>,
    answers: Seq<ReceiveAnswer<S, E>>,
    transport: TransportView,
    stream: S,
    bytes: Vec<u8>,
)
    requires
        states.len() == answers.len() + 1,
        states[0] matches Receiving::Make(creation) && creation_begins(
            creation,
            transport.path,
            System::Windows,
        ),
        forall|k: int|
            0 <= k < answers.len() ==> receiving_follows(
                #[trigger] states[k],
                answers[k],
                transport,
                System::Windows,
                states[k + 1],
            ),
        answers.len() == (if transport.timeout is Some { 6int } else { 3int }),
        answers[0] == ReceiveAnswer::<S, E>::Make(CreateAnswer::Made),
        transport.timeout is None ==> {
            &&& answers[1] == ReceiveAnswer::<S, E>::Take(
                ReceptionAnswer::Accept(AcceptAnswer::Accepted(stream)),
            )
            &&& answers[2] == ReceiveAnswer::<S, E>::Take(ReceptionAnswer::Read(bytes))
        },
        transport.timeout is Some ==> {
            let done = ReceiveAnswer::<S, E>::Take(ReceptionAnswer::Accept(AcceptAnswer::Done));
            &&& answers[1] == done
            &&& answers[2] == ReceiveAnswer::<S, E>::Take(
                ReceptionAnswer::Accept(AcceptAnswer::Accepted(stream)),
            )
            &&& answers[3] == done
            &&& answers[4] == done
            &&& answers[5] == ReceiveAnswer::<S, E>::Take(ReceptionAnswer::Read(bytes))
        },
    ensures
        states[states.len() - 1] matches Receiving::Finished(Ok(streams)) && streams@.len() == 1
            && streams@[0].bytes == bytes && streams@[0].origin_uri@ == origin_uri(
            transport.path,
        ),
{
    let s = System::Windows;
    assert(receiving_follows(states[0], answers[0], transport, s, states[0int + 1]));
    assert(states[1] is Take);
    assert(receiving_follows(states[1], answers[1], transport, s, states[1int + 1]));
    assert(receiving_follows(states[2], answers[2], transport, s, states[2int + 1]));
    if transport.timeout is Some {
        assert(receiving_follows(states[3], answers[3], transport, s, states[3int + 1]));
        assert(receiving_follows(states[4], answers[4], transport, s, states[4int + 1]));
        assert(receiving_follows(states[5], answers[5], transport, s, states[5int + 1]));
    }
}

/// A receive whose pipe cannot be made ends with that failure.
pub proof fn law_receive_fails_where_its_pipe_cannot_be_made<S, E>(
    creation: Creation<E>,
    transport: TransportView,
    system: System,
    error: E,
    after: Receiving<S, E>,
)
    requires
        creation is MakeFifo || creation is MakePipe,
        receiving_follows(
            Receiving::Make(creation),
            ReceiveAnswer::Make(CreateAnswer::Failed(error)),
            transport,
            system,
            after,
        ),
    ensures
        after == Receiving::<S, E>::Finished(Err(Failure::System { at: Step::Creating, error })),
{
}

/// Where no writer comes to a FIFO, found or made, and the time is up, a receive
/// under a timeout ends, and says that no writer came within that timeout.
pub proof fn law_fifo_receive_gives_up<S, E>(
    states: Seq<Receiving<S, E>>,
    answers: Seq<ReceiveAnswer<S, E>>,
    transport: TransportView,
    there: bool,
    limit: Span,
)
    requires
        transport.timeout == Some(limit),
        states.len() == answers.len() + 1,
        states[0] matches Receiving::Make(creation) && creation_begins(
            creation,
            transport.path,
            System::Unix,
        ),
        forall|k: int|
            0 <= k < answers.len() ==> receiving_follows(
                #[trigger] states[k],
                answers[k],
                transport,
                System::Unix,
                states[k + 1],
            ),
        ({
            let n: int = if there { 1 } else { 2 };
            let done = ReceiveAnswer::<S, E>::Take(ReceptionAnswer::Open(OpenAnswer::Done));
            &&& answers.len() == n + 5
            &&& answers[0] == ReceiveAnswer::<S, E>::Make(CreateAnswer::Found(there))
            &&& !there ==> answers[1] == ReceiveAnswer::<S, E>::Make(CreateAnswer::Made)
            &&& answers[n] == done
            &&& answers[n + 1] == ReceiveAnswer::<S, E>::Take(
                ReceptionAnswer::Open(OpenAnswer::TimedOut),
            )
            &&& answers[n + 2] == done
            &&& answers[n + 3] == done
            &&& answers[n + 4] == ReceiveAnswer::<S, E>::Removed
        }),
    ensures
        states[states.len() - 1] == Receiving::<S, E>::Finished(
            Err(Failure::NoWriter { at: Step::Opening, timeout: limit }),
        ),
{
    let s = System::Unix;
    let n: int = if there { 1 } else { 2 };
    assert(receiving_follows(states[0], answers[0], transport, s, states[0int + 1]));
    if !there {
        assert(receiving_follows(states[1], answers[1], transport, s, states[1int + 1]));
    }
    assert(states[n] is Take);
    assert(receiving_follows(states[n], answers[n], transport, s, states[n + 1]));
    assert(receiving_follows(states[n + 1], answers[n + 1], transport, s, states[(n + 1) + 1]));
    assert(receiving_follows(states[n + 2], answers[n + 2], transport, s, states[(n + 2) + 1]));
    assert(receiving_follows(states[n + 3], answers[n + 3], transport, s, states[(n + 3) + 1]));
    assert(receiving_follows(states[n + 4], answers[n + 4], transport, s, states[(n + 4) + 1]));
}

/// However often a poll of a Windows pipe finds no writer before the timeout, a
/// receive goes on polling; a poll that finds none once it has passed ends the
/// receive, which says that no writer came within that timeout.
pub proof fn law_windows_receive_gives_up<S, E>(
    states: Seq<Receiving<S, E>>,
    answers: Seq<ReceiveAnswer<S, E>>,
    transport: TransportView,
    limit: Span,
    n: int,
)
    requires
        transport.timeout == Some(limit),
        0 <= n,
        answers.len() == 4 + 2 * n,
        states.len() == answers.len() + 1,
        states[0] matches Receiving::Make(creation) && creation_begins(
            creation,
            transport.path,
            System::Windows,
        ),
        forall|k: int|
            0 <= k < answers.len() ==> receiving_follows(
                #[trigger] states[k],
                answers[k],
                transport,
                System::Windows,
                states[k + 1],
            ),
        answers[0] == ReceiveAnswer::<S, E>::Make(CreateAnswer::Made),
        answers[1] == ReceiveAnswer::<S, E>::Take(ReceptionAnswer::Accept(AcceptAnswer::Done)),
        forall|k: int| #![trigger answers[2 + 2 * k]]
            0 <= k < n ==> (answers[2 + 2 * k] matches ReceiveAnswer::Take(
                ReceptionAnswer::Accept(AcceptAnswer::WouldBlock { waited }),
            ) && waited.nanos < limit.nanos) && answers[3 + 2 * k] == ReceiveAnswer::<S, E>::Take(
                ReceptionAnswer::Accept(AcceptAnswer::Done),
            ),
        answers[2 + 2 * n] matches ReceiveAnswer::Take(
            ReceptionAnswer::Accept(AcceptAnswer::WouldBlock { waited }),
        ) && waited.nanos >= limit.nanos,
        answers[3 + 2 * n] == ReceiveAnswer::<S, E>::Take(
            ReceptionAnswer::Accept(AcceptAnswer::Done),
        ),
    ensures
        states[states.len() - 1] == Receiving::<S, E>::Finished(
            Err(Failure::NoWriter { at: Step::Accepting, timeout: limit }),
        ),
{
    let s = System::Windows;
    lemma_windows_receive_polls(states, answers, transport, limit, n, n);
    let late: int = 2 + 2 * n;
    assert(receiving_follows(states[late], answers[late], transport, s, states[late + 1]));
    assert(receiving_follows(
        states[late + 1],
        answers[late + 1],
        transport,
        s,
        states[(late + 1) + 1],
    ));
}

proof fn lemma_windows_receive_polls<S, E>(
    states: Seq<Receiving<S, E>>,
    answers: Seq<ReceiveAnswer<S, E>>,
    transport: TransportView,
    limit: Span,
    n: int,
    m: int,
)
    requires
        transport.timeout == Some(limit),
        0 <= m <= n,
        answers.len() == 4 + 2 * n,
        states.len() == answers.len() + 1,
        states[0] matches Receiving::Make(creation) && creation_begins(
            creation,
            transport.path,
            System::Windows,
        ),
        forall|k: int|
            0 <= k < answers.len() ==> receiving_follows(
                #[trigger] states[k],
                answers[k],
                transport,
                System::Windows,
                states[k + 1],
            ),
        answers[0] == ReceiveAnswer::<S, E>::Make(CreateAnswer::Made),
        answers[1] == ReceiveAnswer::<S, E>::Take(ReceptionAnswer::Accept(AcceptAnswer::Done)),
        forall|k: int| #![trigger answers[2 + 2 * k]]
            0 <= k < n ==> (answers[2 + 2 * k] matches ReceiveAnswer::Take(
                ReceptionAnswer::Accept(AcceptAnswer::WouldBlock { waited }),
            ) && waited.nanos < limit.nanos) && answers[3 + 2 * k] == ReceiveAnswer::<S, E>::Take(
                ReceptionAnswer::Accept(AcceptAnswer::Done),
            ),
    ensures
        states[2 + 2 * m] matches Receiving::Take { reception, .. } && reception == Reception::<
            S,
            E,
        >::Accept(Accepting::Poll { timeout: limit }),
    decreases m,
{
    let s = System::Windows;
    assert(receiving_follows(states[0], answers[0], transport, s, states[0int + 1]));
    assert(states[1] is Take);
    assert(receiving_follows(states[1], answers[1], transport, s, states[1int + 1]));
    if m > 0 {
        lemma_windows_receive_polls(states, answers, transport, limit, n, m - 1);
        let k: int = m - 1;
        let at: int = 2 + 2 * k;
        assert(answers[2 + 2 * k] is Take);
        assert(receiving_follows(states[at], answers[at], transport, s, states[at + 1]));
        assert(receiving_follows(
            states[at + 1],
            answers[at + 1],
            transport,
            s,
            states[(at + 1) + 1],
        ));
    }
}

} // verus!
