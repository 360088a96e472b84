//! Rounds over a pipe, driven against a pipe in memory.

use named_pipe::pipe::accepting::{AcceptAnswer, Accepting, NAP_MILLIS};
use named_pipe::pipe::creation::{CreateAnswer, Creation, FIFO_MODE};
use named_pipe::pipe::opening::{OpenAnswer, Opening};
use named_pipe::pipe::reception::{Reception, ReceptionAnswer};
use named_pipe::pipe::sending::{SendAnswer, Sending};
use named_pipe::pipe::{path_of, write_once};
use named_pipe::transport::{ReceiveAnswer, Receiving};
use named_pipe::{
    origin_of, target_path, Arrived, Failure, Host, Listener, NamedPipeTransport, PipePath,
    Report, Span, Step, System,
};

fn path(text: &str) -> PipePath {
    PipePath::from_text(text)
}

type Error = &'static str;
type Outcome<T> = Result<T, Failure<Error>>;

fn windows() -> Host {
    Host { system: System::Windows, temp_dir: path("C:\\Temp") }
}

fn unix() -> Host {
    Host { system: System::Unix, temp_dir: path("/tmp") }
}

fn loopback(host: &Host) -> NamedPipeTransport {
    NamedPipeTransport::loopback(7, 1, Span::from_millis(5000), host)
}

/// Make the pipe; nothing is at its path yet.
fn make(mut state: Creation<Error>) -> Outcome<Listener> {
    loop {
        let answer = match &state {
            Creation::Look { .. } => CreateAnswer::Found(false),
            Creation::MakeFifo { mode, .. } => {
                assert_eq!(*mode, 0o600);
                CreateAnswer::Made
            }
            Creation::MakePipe { .. } => CreateAnswer::Made,
            Creation::Finished(_) => break,
        };
        state = state.next(answer);
    }
    match state {
        Creation::Finished(result) => result,
        other => panic!("{other:?}"),
    }
}

/// Send, where only the pipe at `made` is there; what it then holds.
fn send(mut state: Sending<'_, Vec<u8>, Error>, made: &PipePath) -> (Outcome<()>, Vec<u8>) {
    let mut carried = Vec::new();
    loop {
        let answer = match &mut state {
            Sending::Connect { path, .. } if &*path == made => {
                SendAnswer::Connected(Vec::new())
            }
            Sending::Connect { .. } => SendAnswer::Failed("nothing there"),
            Sending::Write { stream, bytes } => {
                stream.extend_from_slice(bytes);
                SendAnswer::Done
            }
            Sending::Flush { stream } => {
                carried = stream.clone();
                SendAnswer::Done
            }
            Sending::Finished(_) => break,
        };
        state = state.next(answer);
    }
    match state {
        Sending::Finished(result) => (result, carried),
        other => panic!("{other:?}"),
    }
}

/// The answer to what a reception asks for, where `carried` is in the pipe.
fn answer(state: &Reception<Vec<u8>, Error>, carried: &[u8]) -> ReceptionAnswer<Vec<u8>, Error> {
    match state {
        Reception::Accept(Accepting::Accept) | Reception::Accept(Accepting::Poll { .. }) => {
            ReceptionAnswer::Accept(AcceptAnswer::Accepted(carried.to_vec()))
        }
        Reception::Accept(_) => ReceptionAnswer::Accept(AcceptAnswer::Done),
        Reception::Open(Opening::Open { .. }) | Reception::Open(Opening::Wait { .. }) => {
            ReceptionAnswer::Open(OpenAnswer::Opened(carried.to_vec()))
        }
        Reception::Open(_) => ReceptionAnswer::Open(OpenAnswer::Done),
        Reception::Read { stream } => ReceptionAnswer::Read(stream.clone()),
        Reception::Finished(_) => panic!("nothing is asked"),
    }
}

fn take(mut state: Reception<Vec<u8>, Error>, carried: &[u8]) -> Outcome<Vec<u8>> {
    loop {
        state = match state {
            Reception::Finished(result) => return result,
            state => {
                let answer = answer(&state, carried);
                state.next(answer)
            }
        };
    }
}

/// One round: a far end, what is sent to it, and what arrives there.
fn round(pair: &NamedPipeTransport, ticket: u32, payload: &[u8], host: &Host) -> Outcome<Arrived> {
    let far = pair.far_end(7, ticket, host);
    let listener = make(far.transport.bind(host.system))?;
    assert_eq!(listener.path(), far.transport.path());
    let (sent, carried) = send(pair.send_to(&far.address, payload, host), listener.path());
    sent?;
    let read = take(far.transport.accept_one(&listener, host.system), &carried);
    far.transport.arrived(read)
}

fn long() -> Vec<u8> {
    (0..200_000u32).map(|n| u8::try_from(n % 251).unwrap_or(0)).collect()
}

#[test]
fn the_loopback_returns_the_edge_payloads_whole() {
    let edge_payloads: Vec<(&str, Vec<u8>)> = vec![
        ("empty", Vec::new()),
        ("one", vec![0]),
        ("every byte", (0..=255).collect()),
        ("lines", b"\r\n\n\r".to_vec()),
        ("text", "\u{e5}\u{1f600}".as_bytes().to_vec()),
    ];
    for host in [windows(), unix()] {
        let on_windows = host.system == System::Windows;
        let pair = loopback(&host);
        for (name, bytes) in &edge_payloads {
            if let Some(why) = pair.refuses(bytes, host.system) {
                assert!(on_windows && *name == "empty", "{name}: {why}");
                let error = round(&pair, 2, bytes, &host).expect_err("refused, and judged");
                match error.report() {
                    Report::Protocol { message } => {
                        assert!(message.contains("a Stream of nothing"), "{message}");
                        assert_eq!(message, why);
                    }
                    other => panic!("{other:?}"),
                }
                continue;
            }
            let arrived = round(&pair, 2, bytes, &host)
                .unwrap_or_else(|error| panic!("{name}: {error:?}"));
            assert_eq!(&arrived.bytes, bytes, "{name}");
            assert!(arrived.origin_uri.starts_with("pipe://"), "{name}");
        }
        assert!(pair.ceiling().is_none());
        assert!(pair.refuses(b"\r\n\0", host.system).is_none());
        assert_eq!(pair.refuses(b"", host.system).is_some(), on_windows);
    }
}

#[test]
fn each_far_end_is_its_own_pipe_and_a_long_stream_arrives_whole() {
    for host in [windows(), unix()] {
        let pair = loopback(&host);
        let first = pair.far_end(7, 2, &host);
        let second = pair.far_end(7, 3, &host);
        assert_ne!(first.address, second.address);
        let arrived = round(&pair, 4, &long(), &host).expect("the long one");
        assert_eq!(arrived.bytes, long());
        assert!(arrived.origin_uri.contains("xmip-loopback-"));
    }
}

#[test]
fn a_connection_is_one_stream_read_to_its_end() {
    for host in [windows(), unix()] {
        let pair = loopback(&host);
        let arrived = round(&pair, 2, b"over a pipe\0\xff", &host).expect("round");
        assert_eq!(arrived.bytes, b"over a pipe\0\xff");
        let far = pair.far_end(7, 3, &host);
        let origin = origin_of(&target_path(&far.address, &host));
        assert!(origin.starts_with("pipe://"), "{origin}");
        assert_ne!(origin, arrived.origin_uri, "each far end is its own pipe");
        assert!(arrived.origin_uri.starts_with("pipe://"));
        assert!(arrived.origin_uri.contains("xmip-loopback-"));
    }
}

#[test]
fn a_long_stream_and_an_empty_one_arrive_whole() {
    for host in [windows(), unix()] {
        let far_end = NamedPipeTransport::new("long", &host);
        let listener = make(far_end.bind(host.system)).expect("making the pipe");
        let pipe = NamedPipeTransport::new("elsewhere", &host);
        let stream = long();
        let (sent, carried) = send(pipe.send("long", &stream, &host), listener.path());
        sent.expect("sending");
        let first = take(far_end.accept_one(&listener, host.system), &carried);
        let (sent, carried) = send(pipe.send("long", b"", &host), listener.path());
        sent.expect("sending");
        let second = take(far_end.accept_one(&listener, host.system), &carried);
        assert_eq!(far_end.arrived(first).expect("the long one").bytes, long());
        assert!(far_end.arrived(second).expect("the empty one").bytes.is_empty());
    }
}

#[test]
fn a_pipe_nobody_writes_to_gives_up_within_its_timeout() {
    // A Windows pipe, polled: a nap and a poll a millisecond long.
    let timeout = Span::from_millis(200);
    let mut clock = 0;
    let mut state: Accepting<Vec<u8>, Error> = Accepting::accept_within(Some(timeout));
    let mut unblocked = false;
    let refused = loop {
        let answer = match &state {
            Accepting::Unblock { .. } => {
                unblocked = true;
                AcceptAnswer::Done
            }
            Accepting::Poll { .. } => {
                clock += 1;
                AcceptAnswer::WouldBlock { waited: Span::from_millis(clock) }
            }
            Accepting::Nap { nap, .. } => {
                assert_eq!(*nap, Span::from_millis(NAP_MILLIS));
                clock += NAP_MILLIS;
                AcceptAnswer::Done
            }
            Accepting::Restore { .. } => {
                unblocked = false;
                AcceptAnswer::Done
            }
            Accepting::Finished(_) => break state,
            other => panic!("{other:?}"),
        };
        state = state.next(answer);
    };
    assert!(!unblocked, "the listener was left non-blocking");
    assert!(clock < 2000, "gave up after {clock}, which is not a timeout");
    assert!(clock >= 150, "gave up after {clock}, before it had waited");
    match refused {
        Accepting::Finished(Err(failure)) => match failure.report() {
            Report::Retryable { message, at } => {
                assert_eq!(message, "no writer came within 200 ms");
                assert_eq!(at, "accepting a connection");
            }
            other => panic!("{other:?}"),
        },
        other => panic!("{other:?}"),
    }

    // A FIFO, opened on a thread.
    let path = path_of("unanswered", &unix());
    let state: Opening<Vec<u8>, Error> = Opening::open_within(path.clone(), Some(timeout));
    assert!(matches!(&state, Opening::Spawn { path: at, .. } if *at == path));
    let state = state.next(OpenAnswer::Done);
    assert!(matches!(&state, Opening::Wait { timeout: limit, .. } if *limit == timeout));
    let state = state.next(OpenAnswer::TimedOut);
    assert!(matches!(&state, Opening::Release { path: at, .. } if *at == path));
    let state = state.next(OpenAnswer::Done);
    assert!(matches!(state, Opening::Join { .. }));
    match state.next(OpenAnswer::Done) {
        Opening::Finished(Err(failure)) => match failure.report() {
            Report::Retryable { message, at } => {
                assert_eq!(message, "no writer came within 200 ms");
                assert_eq!(at, "opening the pipe");
            }
            other => panic!("{other:?}"),
        },
        other => panic!("{other:?}"),
    }
}

#[test]
fn a_pipe_nobody_made_cannot_be_written() {
    let path = path_of("nobody", &unix());
    let (sent, carried) = send(write_once(path, b"x"), &PipePath::from_text("/tmp/somebody"));
    assert!(carried.is_empty());
    match sent.expect_err("nothing there").report() {
        Report::Classified { at, error } => {
            assert_eq!(at, "connecting to the pipe");
            assert_eq!(error, "nothing there");
        }
        other => panic!("{other:?}"),
    }
}

#[test]
fn a_fifo_left_behind_is_reused() {
    let state: Creation<Error> = Listener::create(&path("/tmp/orders"), System::Unix);
    assert!(matches!(&state, Creation::Look { path: at } if *at == path("/tmp/orders")));
    match state.next(CreateAnswer::Found(true)) {
        Creation::Finished(Ok(listener)) => {
            assert_eq!(listener.path(), &path("/tmp/orders"));
            assert_eq!(listener.leftover(System::Unix), Some(&path("/tmp/orders")));
            assert_eq!(listener.leftover(System::Windows), None);
        }
        other => panic!("{other:?}"),
    }
    assert_eq!(FIFO_MODE, 0o600);
}

#[test]
fn a_pipe_that_cannot_be_made_says_so() {
    let fifo: Creation<Error> = Listener::create(&path("/nowhere/orders"), System::Unix);
    let fifo = fifo.next(CreateAnswer::Found(false)).next(CreateAnswer::Failed("no directory"));
    let object: Creation<Error> = Listener::create(&path("\\\\.\\pipe\\orders"), System::Windows);
    let object = object.next(CreateAnswer::Failed("not permitted"));
    for (state, why) in [(fifo, "no directory"), (object, "not permitted")] {
        match state {
            Creation::Finished(Err(Failure::System { at, error })) => {
                assert_eq!(at.text(), "creating the pipe");
                assert_eq!(error, why);
            }
            other => panic!("{other:?}"),
        }
    }
}

#[test]
fn a_send_says_where_it_failed() {
    let start = || -> Sending<'static, u8, Error> {
        write_once(path("/tmp/orders"), b"bytes")
    };
    let writing = start().next(SendAnswer::Connected(9));
    assert!(matches!(writing, Sending::Write { stream: 9, bytes: b"bytes" }));
    let flushing = start().next(SendAnswer::Connected(9)).next(SendAnswer::Done);
    assert!(matches!(flushing, Sending::Flush { stream: 9 }));
    for (state, words) in [
        (start(), "connecting to the pipe"),
        (writing, "writing to the pipe"),
        (flushing, "flushing the pipe"),
    ] {
        match state.next(SendAnswer::Failed("broken")) {
            Sending::Finished(Err(Failure::System { at, error: "broken" })) => {
                assert_eq!(at.text(), words);
            }
            other => panic!("{other:?}"),
        }
    }
}

#[test]
fn a_poke_is_one_byte_to_the_address() {
    for host in [windows(), unix()] {
        let pair = loopback(&host);
        let far = pair.far_end(7, 2, &host);
        let (sent, carried) = send(pair.unblock(&far.address, &host), far.transport.path());
        sent.expect("the poke");
        assert_eq!(carried, [0]);
    }
}

#[test]
fn an_accept_says_where_it_failed() {
    let timeout = Some(Span::from_millis(20));
    let start = || -> Accepting<u8, Error> { Accepting::accept_within(timeout) };
    let polling = || start().next(AcceptAnswer::Done);
    let accepted = || polling().next(AcceptAnswer::Accepted(9));
    let cases: Vec<(Accepting<u8, Error>, Step)> = vec![
        (Accepting::accept_within(None).next(AcceptAnswer::Failed("x")), Step::Accepting),
        (start().next(AcceptAnswer::Failed("x")), Step::AwaitingWriter),
        (
            polling().next(AcceptAnswer::Failed("x")).next(AcceptAnswer::Done),
            Step::Accepting,
        ),
        (
            polling().next(AcceptAnswer::Failed("y")).next(AcceptAnswer::Failed("x")),
            Step::AwaitingWriter,
        ),
        (accepted().next(AcceptAnswer::Failed("x")), Step::AwaitingWriter),
        (
            accepted().next(AcceptAnswer::Done).next(AcceptAnswer::Failed("x")),
            Step::Settling,
        ),
    ];
    for (state, step) in cases {
        match state {
            Accepting::Finished(Err(Failure::System { at, error: "x" })) => assert_eq!(at, step),
            other => panic!("{other:?}"),
        }
    }
    assert_eq!(Step::AwaitingWriter.text(), "waiting for a writer");
    assert_eq!(Step::Settling.text(), "settling the accepted pipe");
}

#[test]
fn a_writer_in_time_is_taken_and_left_blocking() {
    let mut state: Accepting<u8, Error> = Accepting::accept_within(Some(Span::from_millis(10)));
    state = state.next(AcceptAnswer::Done);
    for waited in [0, 2, 9] {
        state = state.next(AcceptAnswer::WouldBlock { waited: Span::from_millis(waited) });
        assert!(matches!(state, Accepting::Nap { nap: Span { nanos: 2_000_000 }, .. }));
        state = state.next(AcceptAnswer::Done);
    }
    state = state.next(AcceptAnswer::Accepted(9));
    assert!(matches!(state, Accepting::Restore { accepted: Ok(9) }));
    state = state.next(AcceptAnswer::Done);
    assert!(matches!(state, Accepting::Settle { stream: 9 }));
    state = state.next(AcceptAnswer::Done);
    assert!(matches!(state, Accepting::Finished(Ok(9))));
}

#[test]
fn the_timeout_itself_is_too_late() {
    let limit = Span::from_millis(10);
    let polling: Accepting<u8, Error> =
        Accepting::accept_within(Some(limit)).next(AcceptAnswer::Done);
    let state = polling.next(AcceptAnswer::WouldBlock { waited: limit });
    assert!(matches!(
        state,
        Accepting::Restore { accepted: Err(Failure::NoWriter { at: Step::Accepting, .. }) }
    ));
}

#[test]
fn an_opening_ends_with_its_thread_joined() {
    let waiting = || -> Opening<u8, Error> {
        Opening::open_within(path("/tmp/orders"), Some(Span::from_millis(10)))
            .next(OpenAnswer::Done)
    };
    for (answer, opened) in [
        (OpenAnswer::Opened(9), "the file"),
        (OpenAnswer::Failed("x"), "opening the pipe: x"),
        (OpenAnswer::Stopped, "opening the pipe: the pipe's opener stopped"),
    ] {
        let joining = waiting().next(answer);
        assert!(matches!(joining, Opening::Join { .. }));
        let said = match joining.next(OpenAnswer::Done) {
            Opening::Finished(Ok(9)) => String::from("the file"),
            Opening::Finished(Err(failure)) => match failure.report() {
                Report::Classified { at, error } => format!("{at}: {error}"),
                Report::Permanent { message, at } => format!("{at}: {message}"),
                other => panic!("{other:?}"),
            },
            other => panic!("{other:?}"),
        };
        assert_eq!(said, opened);
    }
}

#[test]
fn an_answer_to_another_question_changes_nothing() {
    let opening: Opening<u8, Error> = Opening::open_within(path("/tmp/orders"), None);
    let opening = opening.next(OpenAnswer::Done).next(OpenAnswer::TimedOut);
    assert!(matches!(&opening, Opening::Open { path: at } if *at == path("/tmp/orders")));
    let reception: Reception<u8, Error> = Reception::Open(opening);
    let reception = reception.next(ReceptionAnswer::Read(vec![1]));
    assert!(matches!(reception, Reception::Open(Opening::Open { .. })));
}

#[test]
fn a_pipe_that_cannot_be_read_says_so() {
    let reading: Reception<u8, Error> = Reception::Read { stream: 9 };
    match reading.next(ReceptionAnswer::Failed("broken")) {
        Reception::Finished(Err(Failure::System { at, error: "broken" })) => {
            assert_eq!(at.text(), "reading the pipe");
        }
        other => panic!("{other:?}"),
    }
}

#[test]
fn a_receive_makes_the_pipe_and_gives_one_stream() {
    for host in [windows(), unix()] {
        let orders = NamedPipeTransport::new("orders", &host);
        let timed = NamedPipeTransport::new("orders", &host).timing_out_after(Span::from_millis(9));
        for transport in [orders, timed] {
            let mut state: Receiving<Vec<u8>, Error> = transport.receive(host.system);
            let mut removed = 0;
            let streams = loop {
                let answer = match &state {
                    Receiving::Make(Creation::Look { path }) => {
                        assert_eq!(path, transport.path());
                        ReceiveAnswer::Make(CreateAnswer::Found(false))
                    }
                    Receiving::Make(_) => ReceiveAnswer::Make(CreateAnswer::Made),
                    Receiving::Take { listener, reception } => {
                        assert_eq!(listener.path(), transport.path());
                        ReceiveAnswer::Take(answer(reception, b"orders"))
                    }
                    Receiving::Remove { path, .. } => {
                        assert_eq!(path, transport.path());
                        removed += 1;
                        ReceiveAnswer::Removed
                    }
                    Receiving::Finished(_) => break state,
                };
                state = transport.receive_next(state, answer, host.system);
            };
            assert_eq!(removed, if host.system == System::Unix { 1 } else { 0 });
            match streams {
                Receiving::Finished(Ok(streams)) => {
                    assert_eq!(streams.len(), 1);
                    assert_eq!(streams[0].bytes, b"orders");
                    assert_eq!(streams[0].origin_uri, transport.origin());
                }
                other => panic!("{other:?}"),
            }
        }
    }
}

#[test]
fn a_receive_that_cannot_make_its_pipe_takes_nothing() {
    let transport = NamedPipeTransport::new("orders", &windows());
    let state: Receiving<Vec<u8>, Error> = transport.receive(System::Windows);
    let answer = ReceiveAnswer::Make(CreateAnswer::Failed("not permitted"));
    match transport.receive_next(state, answer, System::Windows) {
        Receiving::Finished(Err(Failure::System { at: Step::Creating, error })) => {
            assert_eq!(error, "not permitted");
        }
        other => panic!("{other:?}"),
    }
}

#[test]
fn a_receive_that_fails_removes_its_fifo_too() {
    let transport = NamedPipeTransport::new("orders", &unix());
    let next = |state, answer| transport.receive_next(state, answer, System::Unix);
    let state: Receiving<Vec<u8>, Error> = transport.receive(System::Unix);
    let state = next(state, ReceiveAnswer::Make(CreateAnswer::Found(true)));
    let failed = ReceptionAnswer::Open(OpenAnswer::Failed("gone"));
    let state = next(state, ReceiveAnswer::Take(failed));
    assert!(matches!(&state, Receiving::Remove { path: at, .. } if at == transport.path()));
    match next(state, ReceiveAnswer::Removed) {
        Receiving::Finished(Err(Failure::System { at: Step::Opening, error: "gone" })) => {}
        other => panic!("{other:?}"),
    }
}

#[test]
fn a_receive_that_cannot_make_its_fifo_removes_nothing() {
    let transport = NamedPipeTransport::new("orders", &unix());
    let next = |state, answer| transport.receive_next(state, answer, System::Unix);
    let state: Receiving<Vec<u8>, Error> = transport.receive(System::Unix);
    let state = next(state, ReceiveAnswer::Make(CreateAnswer::Found(false)));
    match next(state, ReceiveAnswer::Make(CreateAnswer::Failed("no directory"))) {
        Receiving::Finished(Err(Failure::System { at: Step::Creating, .. })) => {}
        other => panic!("{other:?}"),
    }
}
