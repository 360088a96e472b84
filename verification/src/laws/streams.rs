//! Laws of Streams: what is sent, what arrives, and over which pipe.

use vstd::prelude::*;

use crate::failure::{Failure, Step};
use crate::host::{Span, System};
use crate::laws::waiting::{accept_run, open_run};
use crate::name::origin_uri;
use crate::path::{PipePath, Unit};
use crate::pipe::accepting::{accept_start, AcceptAnswer, Accepting};
use crate::pipe::creation::{
    created_at, creation_begins, creation_follows, CreateAnswer, Creation, FIFO_MODE,
};
use crate::pipe::opening::{open_start, OpenAnswer, Opening};
use crate::pipe::reception::{connected, reception_step, Reception, ReceptionAnswer};
use crate::pipe::sending::{send_step, sending_begins, SendAnswer, Sending};
use crate::transport::{receiving_follows, Arrived, ReceiveAnswer, Receiving, TransportView};

verus! {

/// Where a send that began at `start` stands after `answers`.
pub open spec fn send_run<'a, S, E>(
    start: Sending<'a, S, E>,
    answers: Seq<SendAnswer<S, E>>,
) -> Sending<'a, S, E>
    decreases answers.len(),
{
    if answers.len() == 0 {
        start
    } else {
        send_step(send_run(start, answers.drop_last()), answers.last())
    }
}

/// What a send has put into the pipe.
pub struct Sent {
    pub bytes: Seq<u8>,
    pub flushed: bool,
}

/// Whether `after` can be in the pipe where `sent` was and `answer` came to what
/// `state` asks for. A write that fails may have put some of its bytes there,
/// the first ones.
pub open spec fn sent_follows<S, E>(
    sent: Sent,
    state: Sending<S, E>,
    answer: SendAnswer<S, E>,
    after: Sent,
) -> bool {
    match (state, answer) {
        (Sending::Write { bytes, .. }, SendAnswer::Done) => {
            &&& after.bytes == sent.bytes + bytes@
            &&& !after.flushed
        },
        (Sending::Write { bytes, .. }, SendAnswer::Failed(_)) => {
            &&& exists|n: int|
                0 <= n <= bytes@.len() && after.bytes == sent.bytes + #[trigger] bytes@.take(n)
            &&& !after.flushed
        },
        (Sending::Flush { .. }, SendAnswer::Done) => {
            &&& after.bytes == sent.bytes
            &&& after.flushed
        },
        _ => after == sent,
    }
}

/// Whether `sents` can be in the pipe, one after another, as a send that began
/// at `start` is given `answers`; nothing is there to begin with.
pub open spec fn is_sent<S, E>(
    start: Sending<S, E>,
    answers: Seq<SendAnswer<S, E>>,
    sents: Seq<Sent>,
) -> bool {
    &&& sents.len() == answers.len() + 1
    &&& sents[0].bytes.len() == 0 && !sents[0].flushed
    &&& forall|i: int|
        0 <= i < answers.len() ==> sent_follows(
            #[trigger] sents[i],
            send_run(start, answers.take(i)),
            answers[i],
            sents[i + 1],
        )
}

/// What a send puts into the pipe is a prefix of the Stream, however it ends:
/// all of it, flushed, where the send succeeds; all of it where only the flush
/// failed; nothing where the connect failed.
pub proof fn law_sent_is_a_prefix<S, E>(
    start: Sending<S, E>,
    path: Seq<Unit>,
    bytes: Seq<u8>,
    answers: Seq<SendAnswer<S, E>>,
    sents: Seq<Sent>,
)
    requires
        sending_begins(start, path, bytes),
        is_sent(start, answers, sents),
    ensures
        sents.last().bytes.is_prefix_of(bytes),
        match send_run(start, answers) {
            Sending::Finished(Ok(_)) => sents.last().bytes == bytes && sents.last().flushed,
            Sending::Finished(Err(Failure::System { at, .. })) => {
                &&& at == Step::Connecting ==> sents.last().bytes.len() == 0
                &&& at == Step::Flushing ==> sents.last().bytes == bytes
            },
            _ => true,
        },
{
    lemma_sent(start, path, bytes, answers, sents);
}

proof fn lemma_sent<S, E>(
    start: Sending<S, E>,
    path: Seq<Unit>,
    bytes: Seq<u8>,
    answers: Seq<SendAnswer<S, E>>,
    sents: Seq<Sent>,
)
    requires
        sending_begins(start, path, bytes),
        is_sent(start, answers, sents),
    ensures
        sents.last().bytes.is_prefix_of(bytes),
        match send_run(start, answers) {
            Sending::Connect { bytes: all, .. } => all@ == bytes && sents.last().bytes.len() == 0,
            Sending::Write { bytes: all, .. } => all@ == bytes && sents.last().bytes.len() == 0,
            Sending::Flush { .. } => sents.last().bytes == bytes,
            Sending::Finished(Ok(_)) => sents.last().bytes == bytes && sents.last().flushed,
            Sending::Finished(Err(Failure::System { at, .. })) => {
                &&& at == Step::Connecting ==> sents.last().bytes.len() == 0
                &&& at == Step::Flushing ==> sents.last().bytes == bytes
            },
            _ => true,
        },
    decreases answers.len(),
{
    if answers.len() == 0 {
        assert(sents.last() == sents[0]);
        assert(sents.last().bytes =~= bytes.take(0));
    } else {
        let last: int = answers.len() - 1;
        let before = answers.drop_last();
        lemma_sent_shorter(start, answers, sents);
        lemma_sent(start, path, bytes, before, sents.drop_last());
        let sent = sents[last];
        let after = sents[last + 1];
        assert(sents.drop_last().last() == sent);
        assert(sents.last() == after);
        assert(answers.take(last) =~= before);
        assert(sent_follows(sent, send_run(start, before), answers[last], after));
        match (send_run(start, before), answers[last]) {
            (Sending::Write { bytes: all, .. }, SendAnswer::Done) => {
                assert(after.bytes =~= bytes);
            },
            (Sending::Write { bytes: all, .. }, SendAnswer::Failed(_)) => {
                let n = choose|n: int|
                    0 <= n <= all@.len() && after.bytes == sent.bytes + #[trigger] all@.take(n);
                assert(after.bytes =~= bytes.take(n));
                assert(after.bytes =~= bytes.subrange(0, after.bytes.len() as int));
            },
            _ => {},
        }
    }
}

/// What a send had put into the pipe before its last answer.
proof fn lemma_sent_shorter<S, E>(
    start: Sending<S, E>,
    answers: Seq<SendAnswer<S, E>>,
    sents: Seq<Sent>,
)
    requires
        is_sent(start, answers, sents),
        answers.len() > 0,
    ensures
        is_sent(start, answers.drop_last(), sents.drop_last()),
{
    let before = answers.drop_last();
    let shorter = sents.drop_last();
    assert forall|i: int| 0 <= i < before.len() implies sent_follows(
        #[trigger] shorter[i],
        send_run(start, before.take(i)),
        before[i],
        shorter[i + 1],
    ) by {
        assert(shorter[i] == sents[i]);
        assert(before.take(i) =~= answers.take(i));
        assert(sent_follows(sents[i], send_run(start, answers.take(i)), answers[i], sents[i + 1]));
    }
}

/// A send whose connect, write and flush are done succeeds.
pub proof fn law_send_succeeds<S, E>(
    start: Sending<S, E>,
    path: Seq<Unit>,
    bytes: Seq<u8>,
    stream: S,
)
    requires
        sending_begins(start, path, bytes),
    ensures
        send_run(
            start,
            seq![SendAnswer::<S, E>::Connected(stream)].push(SendAnswer::Done).push(
                SendAnswer::Done,
            ),
        ) == Sending::<S, E>::Finished(Ok(())),
{
    let none = Seq::<SendAnswer<S, E>>::empty();
    let connected = none.push(SendAnswer::Connected(stream));
    let written = connected.push(SendAnswer::Done);
    assert(connected.drop_last() =~= none);
    assert(written.drop_last() =~= connected);
    assert(written.push(SendAnswer::Done).drop_last() =~= written);
    reveal_with_fuel(send_run, 4);
}

/// A Stream that was refused is not sent: nothing that comes after changes the
/// refusal, and nothing is put into the pipe.
pub proof fn law_refused_stream_is_not_sent<S, E>(
    refusal: Failure<E>,
    answers: Seq<SendAnswer<S, E>>,
    sents: Seq<Sent>,
)
    requires
        is_sent(Sending::<S, E>::Finished(Err(refusal)), answers, sents),
    ensures
        send_run(Sending::<S, E>::Finished(Err(refusal)), answers) == Sending::<S, E>::Finished(
            Err(refusal),
        ),
        sents.last().bytes.len() == 0,
    decreases answers.len(),
{
    let start = Sending::<S, E>::Finished(Err(refusal));
    if answers.len() > 0 {
        let last: int = answers.len() - 1;
        lemma_sent_shorter(start, answers, sents);
        law_refused_stream_is_not_sent(refusal, answers.drop_last(), sents.drop_last());
        assert(answers.take(last) =~= answers.drop_last());
        assert(sents.drop_last().last() == sents[last]);
        assert(sent_follows(
            sents[last],
            send_run(start, answers.take(last)),
            answers[last],
            sents[last + 1],
        ));
    }
}

/// Where a reception that began at `start` stands after `answers`.
pub open spec fn reception_run<S, E>(
    start: Reception<S, E>,
    answers: Seq<ReceptionAnswer<S, E>>,
) -> Reception<S, E>
    decreases answers.len(),
{
    if answers.len() == 0 {
        start
    } else {
        reception_step(reception_run(start, answers.drop_last()), answers.last())
    }
}

/// A reception from a Windows pipe waits as [`accept_run`] does, and goes on to
/// read the connection that the wait ends with, or ends with its failure.
pub proof fn law_reception_waits_for_a_connection<S, E>(
    timeout: Option<Span>,
    waits: Seq<AcceptAnswer<S, E>>,
)
    ensures
        reception_run(
            Reception::Accept(accept_start(timeout)),
            waits.map_values(|answer: AcceptAnswer<S, E>| ReceptionAnswer::Accept(answer)),
        ) == match accept_run(timeout, waits) {
            Accepting::Finished(connection) => connected(connection),
            accepting => Reception::<S, E>::Accept(accepting),
        },
    decreases waits.len(),
{
    let answers = waits.map_values(|answer: AcceptAnswer<S, E>| ReceptionAnswer::Accept(answer));
    if waits.len() > 0 {
        law_reception_waits_for_a_connection(timeout, waits.drop_last());
        assert(answers.drop_last() =~= waits.drop_last().map_values(
            |answer: AcceptAnswer<S, E>| ReceptionAnswer::Accept(answer),
        ));
    }
}

/// A reception from a FIFO waits as [`open_run`] does, and goes on to read the
/// file that the wait ends with, or ends with its failure.
pub proof fn law_reception_waits_for_a_fifo<S, E>(
    path: PipePath,
    timeout: Option<Span>,
    waits: Seq<OpenAnswer<S, E>>,
)
    ensures
        reception_run(
            Reception::Open(open_start(path, timeout)),
            waits.map_values(|answer: OpenAnswer<S, E>| ReceptionAnswer::Open(answer)),
        ) == match open_run(path, timeout, waits) {
            Opening::Finished(connection) => connected(connection),
            opening => Reception::<S, E>::Open(opening),
        },
    decreases waits.len(),
{
    let answers = waits.map_values(|answer: OpenAnswer<S, E>| ReceptionAnswer::Open(answer));
    if waits.len() > 0 {
        law_reception_waits_for_a_fifo(path, timeout, waits.drop_last());
        assert(answers.drop_last() =~= waits.drop_last().map_values(
            |answer: OpenAnswer<S, E>| ReceptionAnswer::Open(answer),
        ));
    }
}

/// What a reception gives is what was read, byte for byte.
pub proof fn law_reception_gives_what_was_read<S, E>(
    start: Reception<S, E>,
    answers: Seq<ReceptionAnswer<S, E>>,
)
    requires
        !(start is Finished),
    ensures
        reception_run(start, answers) matches Reception::Finished(Ok(bytes)) ==> answers.contains(
            ReceptionAnswer::Read(bytes),
        ),
    decreases answers.len(),
{
    if answers.len() > 0 {
        let before = answers.drop_last();
        law_reception_gives_what_was_read(start, before);
        if let Reception::Finished(Ok(bytes)) = reception_run(start, before) {
            let answer = ReceptionAnswer::<S, E>::Read(bytes);
            let i = choose|i: int| 0 <= i < before.len() && before[i] == answer;
            assert(answers[i] == answer);
        }
        assert(answers[answers.len() - 1] == answers.last());
    }
}

/// One connection is one Stream, and it arrives whole: where the send succeeds,
/// and every read of the pipe gives what was put into it, what the reception
/// gives is what was sent.
pub proof fn law_stream_arrives_whole<S, E>(
    sender: Sending<S, E>,
    path: Seq<Unit>,
    bytes: Seq<u8>,
    sends: Seq<SendAnswer<S, E>>,
    sents: Seq<Sent>,
    receiver: Reception<S, E>,
    reads: Seq<ReceptionAnswer<S, E>>,
)
    requires
        sending_begins(sender, path, bytes),
        is_sent(sender, sends, sents),
        send_run(sender, sends) == Sending::<S, E>::Finished(Ok(())),
        !(receiver is Finished),
        forall|i: int| 0 <= i < reads.len() ==> (#[trigger] reads[i] matches ReceptionAnswer::Read(
            read,
        ) ==> read@ == sents.last().bytes),
    ensures
        reception_run(receiver, reads) matches Reception::Finished(Ok(read)) ==> read@ == bytes,
{
    law_sent_is_a_prefix(sender, path, bytes, sends, sents);
    law_reception_gives_what_was_read(receiver, reads);
    if let Reception::Finished(Ok(read)) = reception_run(receiver, reads) {
        let answer = ReceptionAnswer::<S, E>::Read(read);
        let i = choose|i: int| 0 <= i < reads.len() && reads[i] == answer;
        assert(reads[i] == answer);
    }
}

/// A FIFO that a previous run left behind is reused: where something is at the
/// path nothing is made, and where nothing is, a FIFO is made there that only
/// its owner can open.
pub proof fn law_fifo_is_reused<E>(
    start: Creation<E>,
    path: Seq<Unit>,
    there: bool,
    after: Creation<E>,
)
    requires
        creation_begins(start, path, System::Unix),
        creation_follows(start, CreateAnswer::Found(there), after),
    ensures
        there ==> created_at(after, path),
        !there ==> (after matches Creation::MakeFifo { path: at, mode } && at@ == path && mode
            == FIFO_MODE),
{
}

/// Whether every action of `state` is on the pipe at `path`.
pub open spec fn creation_is_at<E>(state: Creation<E>, path: Seq<Unit>) -> bool {
    match state {
        Creation::Look { path: at } => at@ == path,
        Creation::MakeFifo { path: at, mode } => at@ == path && mode == FIFO_MODE,
        Creation::MakePipe { path: at } => at@ == path,
        Creation::Finished(Ok(listener)) => listener@ == path,
        Creation::Finished(Err(_)) => true,
    }
}

/// Making a pipe concerns its own path alone, from the first action to the made
/// end.
pub proof fn law_creation_keeps_its_path<E>(
    state: Creation<E>,
    answer: CreateAnswer<E>,
    after: Creation<E>,
    path: Seq<Unit>,
    system: System,
)
    ensures
        creation_begins(state, path, system) ==> creation_is_at(state, path),
        creation_is_at(state, path) && creation_follows(state, answer, after) ==> creation_is_at(
            after,
            path,
        ),
{
}

/// Whether `states` are those of one receive of `transport`, each but the first
/// following the one before it by the answer of its place.
pub open spec fn is_receive<S, E>(
    states: Seq<Receiving<S, E>>,
    answers: Seq<ReceiveAnswer<S, E>>,
    transport: TransportView,
    system: System,
) -> bool {
    &&& states.len() == answers.len() + 1
    &&& states[0] matches Receiving::Make(creation) && creation_begins(
        creation,
        transport.path,
        system,
    )
    &&& forall|i: int|
        0 <= i < answers.len() ==> receiving_follows(
            #[trigger] states[i],
            answers[i],
            transport,
            system,
            states[i + 1],
        )
}

/// Whether `streams` are what one receive of `transport` gives: exactly one
/// Stream, the bytes that were read, with the pipe's origin.
pub open spec fn is_one_stream<S, E>(
    streams: Seq<Arrived>,
    answers: Seq<ReceiveAnswer<S, E>>,
    transport: TransportView,
) -> bool {
    &&& streams.len() == 1
    &&& streams[0].origin_uri@ == origin_uri(transport.path)
    &&& answers.contains(ReceiveAnswer::Take(ReceptionAnswer::Read(streams[0].bytes)))
}

/// A receive takes its connection from the transport's own pipe, gives exactly
/// one Stream, the bytes that were read with the pipe's origin, and removes
/// nothing but its own FIFO.
pub proof fn law_receive_gives_one_stream<S, E>(
    states: Seq<Receiving<S, E>>,
    answers: Seq<ReceiveAnswer<S, E>>,
    transport: TransportView,
    system: System,
    i: int,
)
    requires
        is_receive(states, answers, transport, system),
        0 <= i < states.len(),
    ensures
        match states[i] {
            Receiving::Make(creation) => creation_is_at(creation, transport.path),
            Receiving::Take { listener, reception } => {
                &&& listener@ == transport.path
                &&& !(reception is Finished)
            },
            Receiving::Remove { path, received } => {
                &&& system is Unix
                &&& path@ == transport.path
                &&& received matches Ok(streams) ==> is_one_stream(streams@, answers, transport)
            },
            Receiving::Finished(received) => received matches Ok(streams) ==> is_one_stream(
                streams@,
                answers,
                transport,
            ),
        },
    decreases i,
{
    if i > 0 {
        law_receive_gives_one_stream(states, answers, transport, system, i - 1);
        let state = states[i - 1];
        let answer = answers[i - 1];
        let after = states[i];
        assert(receiving_follows(state, answer, transport, system, after));
    }
}

/// Whether a FIFO is at the pipe's path after `answer` came to what `state` asks
/// for, where `there` says whether one was. Whether a removal goes through,
/// `permitted` says.
pub open spec fn fifo_step<S, E>(
    there: bool,
    state: Receiving<S, E>,
    answer: ReceiveAnswer<S, E>,
    permitted: bool,
) -> bool {
    match (state, answer) {
        (
            Receiving::Make(Creation::Look { .. }),
            ReceiveAnswer::Make(CreateAnswer::Found(found)),
        ) => found,
        (
            Receiving::Make(Creation::MakeFifo { .. }),
            ReceiveAnswer::Make(CreateAnswer::Made),
        ) => true,
        (Receiving::Remove { .. }, ReceiveAnswer::Removed) => there && !permitted,
        _ => there,
    }
}

/// Whether a FIFO is known to be at the pipe's path after the first `i` of
/// `answers`.
pub open spec fn fifo_run<S, E>(
    states: Seq<Receiving<S, E>>,
    answers: Seq<ReceiveAnswer<S, E>>,
    permitted: bool,
    i: int,
) -> bool
    decreases i,
{
    if i <= 0 {
        false
    } else {
        fifo_step(
            fifo_run(states, answers, permitted, i - 1),
            states[i - 1],
            answers[i - 1],
            permitted,
        )
    }
}

/// Whether one of the first `i` of `states` waits for a writer or reads.
pub open spec fn has_taken<S, E>(states: Seq<Receiving<S, E>>, i: int) -> bool {
    exists|j: int| 0 <= j < i && #[trigger] states[j] is Take
}

/// Whether one of the first `i` of `states` asks for the removal.
pub open spec fn has_removed<S, E>(states: Seq<Receiving<S, E>>, i: int) -> bool {
    exists|j: int| 0 <= j < i && #[trigger] states[j] is Remove
}

/// A receive on Unix that made its FIFO, or found one, removes it before it
/// ends, after an error as after success, so that none is left where the removal
/// goes through. Where the FIFO could not be made, no writer is waited for and
/// nothing is removed.
pub proof fn law_receive_leaves_no_fifo<S, E>(
    states: Seq<Receiving<S, E>>,
    answers: Seq<ReceiveAnswer<S, E>>,
    transport: TransportView,
    permitted: bool,
    i: int,
)
    requires
        is_receive(states, answers, transport, System::Unix),
        0 <= i < states.len(),
    ensures
        match states[i] {
            Receiving::Make(_) => !has_taken(states, i) && !has_removed(states, i),
            Receiving::Take { .. } => fifo_run(states, answers, permitted, i) && !has_removed(
                states,
                i,
            ),
            Receiving::Remove { path, .. } => {
                &&& fifo_run(states, answers, permitted, i)
                &&& has_taken(states, i)
                &&& path@ == transport.path
            },
            Receiving::Finished(received) => {
                &&& permitted ==> !fifo_run(states, answers, permitted, i)
                &&& has_removed(states, i) <==> has_taken(states, i)
                &&& !has_taken(states, i) ==> (received matches Err(Failure::System { at, .. })
                    && at == Step::Creating)
            },
        },
{
    lemma_receive_fifo(states, answers, transport, permitted, i);
    law_receive_gives_one_stream(states, answers, transport, System::Unix, i);
}

proof fn lemma_receive_fifo<S, E>(
    states: Seq<Receiving<S, E>>,
    answers: Seq<ReceiveAnswer<S, E>>,
    transport: TransportView,
    permitted: bool,
    i: int,
)
    requires
        is_receive(states, answers, transport, System::Unix),
        0 <= i < states.len(),
    ensures
        ({
            let there = fifo_run(states, answers, permitted, i);
            let took = has_taken(states, i);
            let removed = has_removed(states, i);
            match states[i] {
                Receiving::Make(creation) => {
                    &&& creation is Look || creation is MakeFifo
                    &&& !there && !took && !removed
                },
                Receiving::Take { .. } => there && !removed,
                Receiving::Remove { .. } => there && took,
                Receiving::Finished(received) => {
                    &&& permitted ==> !there
                    &&& removed <==> took
                    &&& !took ==> (received matches Err(Failure::System { at, .. }) && at
                        == Step::Creating)
                },
            }
        }),
    decreases i,
{
    if i > 0 {
        lemma_receive_fifo(states, answers, transport, permitted, i - 1);
        let state = states[i - 1];
        let answer = answers[i - 1];
        let after = states[i];
        assert(receiving_follows(state, answer, transport, System::Unix, after));
        assert(has_taken(states, i) <==> has_taken(states, i - 1) || state is Take);
        assert(has_removed(states, i) <==> has_removed(states, i - 1) || state is Remove);
    }
}

} // verus!
