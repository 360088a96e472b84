//! Laws of what each conversation with the system comes to: which actions are
//! asked for, on which path, and which result every answer leads to.

use vstd::prelude::*;

use crate::failure::{Failure, Step};
use crate::host::{Span, System};
use crate::path::{PipePath, Unit};
use crate::pipe::accepting::{accept_start, accept_step, AcceptAnswer, Accepting};
use crate::pipe::creation::{creation_begins, creation_follows, CreateAnswer, Creation};
use crate::pipe::opening::{open_start, open_step, OpenAnswer, Opening};
use crate::pipe::reception::{reception_begins, reception_step, Reception, ReceptionAnswer};
use crate::pipe::sending::{send_step, sending_begins, SendAnswer, Sending};

verus! {

/// A FIFO is looked for at its path. Where something is there, that is the made
/// end; where nothing is, a FIFO that only its owner can open is made at that
/// path, and the making succeeds or fails as the system says.
pub proof fn law_fifo_is_made_where_it_is_missing<E>(
    first: Creation<E>,
    path: Seq<Unit>,
    found: Creation<E>,
    missing: Creation<E>,
    made: Creation<E>,
    failed: Creation<E>,
    error: E,
)
    requires
        creation_begins(first, path, System::Unix),
        creation_follows(first, CreateAnswer::Found(true), found),
        creation_follows(first, CreateAnswer::Found(false), missing),
        creation_follows(missing, CreateAnswer::Made, made),
        creation_follows(missing, CreateAnswer::Failed(error), failed),
    ensures
        first matches Creation::Look { path: at } && at@ == path,
        found matches Creation::Finished(Ok(listener)) && listener@ == path,
        missing matches Creation::MakeFifo { path: at, mode } && at@ == path && mode == 0o600,
        made matches Creation::Finished(Ok(listener)) && listener@ == path,
        failed == Creation::<E>::Finished(Err(Failure::System { at: Step::Creating, error })),
{
}

/// A Windows pipe is made at its path at once, and that succeeds or fails as the
/// system says.
pub proof fn law_windows_pipe_is_made<E>(
    first: Creation<E>,
    path: Seq<Unit>,
    made: Creation<E>,
    failed: Creation<E>,
    error: E,
)
    requires
        creation_begins(first, path, System::Windows),
        creation_follows(first, CreateAnswer::Made, made),
        creation_follows(first, CreateAnswer::Failed(error), failed),
    ensures
        first matches Creation::MakePipe { path: at } && at@ == path,
        made matches Creation::Finished(Ok(listener)) && listener@ == path,
        failed == Creation::<E>::Finished(Err(Failure::System { at: Step::Creating, error })),
{
}

/// An answer that is none to what making a pipe asks for changes nothing, and a
/// result stays.
pub proof fn law_creation_hears_only_its_answers<E>(
    state: Creation<E>,
    answer: CreateAnswer<E>,
    after: Creation<E>,
)
    requires
        creation_follows(state, answer, after),
        match state {
            Creation::Look { .. } => !(answer is Found),
            Creation::MakeFifo { .. } => answer is Found,
            Creation::MakePipe { .. } => answer is Found,
            Creation::Finished(_) => true,
        },
    ensures
        after == state,
{
}

/// An accept without a timeout is one blocking accept, whose connection or error
/// is the result.
pub proof fn law_untimed_accept<S, E>(stream: S, error: E)
    ensures
        accept_start::<S, E>(None) == Accepting::<S, E>::Accept,
        accept_step(accept_start::<S, E>(None), AcceptAnswer::Accepted(stream))
            == Accepting::<S, E>::Finished(Ok(stream)),
        accept_step(accept_start::<S, E>(None), AcceptAnswer::Failed(error)) == Accepting::<
            S,
            E,
        >::Finished(Err(Failure::System { at: Step::Accepting, error })),
{
}

/// An accept under a timeout makes the listener non-blocking and polls it. After
/// every poll that finds no writer before the timeout it sleeps two milliseconds
/// and polls again, however often that is.
pub proof fn law_timed_accept_polls<S, E>(
    limit: Span,
    states: Seq<Accepting<S, E>>,
    answers: Seq<AcceptAnswer<S, E>>,
    n: int,
)
    requires
        0 <= n,
        answers.len() >= 1 + 2 * n,
        states.len() == answers.len() + 1,
        states[0] == accept_start::<S, E>(Some(limit)),
        forall|i: int| 0 <= i < answers.len() ==> #[trigger] states[i + 1] == accept_step(
            states[i],
            answers[i],
        ),
        answers[0] == AcceptAnswer::<S, E>::Done,
        forall|k: int| #![trigger answers[1 + 2 * k]]
            0 <= k < n ==> (answers[1 + 2 * k] matches AcceptAnswer::WouldBlock { waited }
                && waited.nanos < limit.nanos) && answers[2 + 2 * k] == AcceptAnswer::<
                S,
                E,
            >::Done,
    ensures
        states[0] == (Accepting::<S, E>::Unblock { timeout: limit }),
        states[1 + 2 * n] == (Accepting::<S, E>::Poll { timeout: limit }),
        n > 0 ==> states[2 * n] == (Accepting::<S, E>::Nap {
            timeout: limit,
            nap: Span { nanos: 2_000_000 },
        }),
    decreases n,
{
    assert(states[0int + 1] == accept_step(states[0], answers[0]));
    if n > 0 {
        law_timed_accept_polls(limit, states, answers, n - 1);
        let k = n - 1;
        assert(answers[1 + 2 * k] is WouldBlock);
        assert(states[(1 + 2 * k) + 1] == accept_step(states[1 + 2 * k], answers[1 + 2 * k]));
        assert(states[(2 + 2 * k) + 1] == accept_step(states[2 + 2 * k], answers[2 + 2 * k]));
    }
}

/// What a poll leads to. A writer is taken: the listener is made blocking, then
/// the connection, which is the result. No writer once the timeout has passed is
/// the end, and so is an error, each after the listener is made blocking again. A
/// mode that cannot be switched is a failure of its own.
pub proof fn law_timed_accept_outcomes<S, E>(
    limit: Span,
    stream: S,
    waited: Span,
    error: E,
    other: E,
)
    requires
        waited.nanos >= limit.nanos,
    ensures
        ({
            let poll = Accepting::<S, E>::Poll { timeout: limit };
            let taken = accept_step(poll, AcceptAnswer::Accepted(stream));
            let late = accept_step(poll, AcceptAnswer::WouldBlock { waited });
            let broken = accept_step(poll, AcceptAnswer::Failed(error));
            let restored = accept_step(taken, AcceptAnswer::Done);
            let stuck = Accepting::<S, E>::Finished(
                Err(Failure::System { at: Step::AwaitingWriter, error: other }),
            );
            &&& taken is Restore && late is Restore && broken is Restore
            &&& restored == (Accepting::<S, E>::Settle { stream })
            &&& accept_step(restored, AcceptAnswer::Done) == Accepting::<S, E>::Finished(Ok(stream))
            &&& accept_step(restored, AcceptAnswer::Failed(error)) == Accepting::<S, E>::Finished(
                Err(Failure::System { at: Step::Settling, error }),
            )
            &&& accept_step(late, AcceptAnswer::Done) == Accepting::<S, E>::Finished(
                Err(Failure::NoWriter { at: Step::Accepting, timeout: limit }),
            )
            &&& accept_step(broken, AcceptAnswer::Done) == Accepting::<S, E>::Finished(
                Err(Failure::System { at: Step::Accepting, error }),
            )
            &&& accept_step(taken, AcceptAnswer::Failed(other)) == stuck
            &&& accept_step(late, AcceptAnswer::Failed(other)) == stuck
            &&& accept_step(broken, AcceptAnswer::Failed(other)) == stuck
            &&& accept_step(
                accept_start::<S, E>(Some(limit)),
                AcceptAnswer::Failed(other),
            ) == stuck
        }),
{
}

/// An answer that is none to what an accept asks for changes nothing, and a
/// result stays.
pub proof fn law_accept_hears_only_its_answers<S, E>(
    state: Accepting<S, E>,
    answer: AcceptAnswer<S, E>,
)
    requires
        match state {
            Accepting::Accept => answer is WouldBlock || answer is Done,
            Accepting::Unblock { .. } => answer is Accepted || answer is WouldBlock,
            Accepting::Poll { .. } => answer is Done,
            Accepting::Nap { .. } => !(answer is Done),
            Accepting::Restore { .. } => answer is Accepted || answer is WouldBlock,
            Accepting::Settle { .. } => answer is Accepted || answer is WouldBlock,
            Accepting::Finished(_) => true,
        },
    ensures
        accept_step(state, answer) == state,
{
}

/// An opening without a timeout is one blocking open of the FIFO, whose file or
/// error is the result.
pub proof fn law_untimed_open<S, E>(path: PipePath, stream: S, error: E)
    ensures
        open_start::<S, E>(path, None) == (Opening::<S, E>::Open { path }),
        open_step(open_start::<S, E>(path, None), OpenAnswer::Opened(stream)) == Opening::<
            S,
            E,
        >::Finished(Ok(stream)),
        open_step(open_start::<S, E>(path, None), OpenAnswer::Failed(error)) == Opening::<
            S,
            E,
        >::Finished(Err(Failure::System { at: Step::Opening, error })),
{
}

/// An opening under a timeout starts a thread that opens the FIFO and waits for
/// it at most that long. What the thread says is the result once it is joined.
/// When the time is up the same FIFO is opened for writing first, and the result
/// is that no writer came within the timeout.
pub proof fn law_timed_open_outcomes<S, E>(path: PipePath, limit: Span, stream: S, error: E)
    ensures
        ({
            let first = open_start::<S, E>(path, Some(limit));
            let wait = open_step(first, OpenAnswer::Done);
            let opened = open_step(wait, OpenAnswer::Opened(stream));
            let broken = open_step(wait, OpenAnswer::Failed(error));
            let stopped = open_step(wait, OpenAnswer::Stopped);
            let late = open_step(wait, OpenAnswer::TimedOut);
            let released = open_step(late, OpenAnswer::Done);
            &&& first == (Opening::<S, E>::Spawn { path, timeout: limit })
            &&& wait == (Opening::<S, E>::Wait { path, timeout: limit })
            &&& opened is Join && broken is Join && stopped is Join && released is Join
            &&& open_step(opened, OpenAnswer::Done) == Opening::<S, E>::Finished(Ok(stream))
            &&& open_step(broken, OpenAnswer::Done) == Opening::<S, E>::Finished(
                Err(Failure::System { at: Step::Opening, error }),
            )
            &&& open_step(stopped, OpenAnswer::Done) == Opening::<S, E>::Finished(
                Err(Failure::OpenerStopped),
            )
            &&& late == (Opening::<S, E>::Release { path, timeout: limit })
            &&& open_step(released, OpenAnswer::Done) == Opening::<S, E>::Finished(
                Err(Failure::NoWriter { at: Step::Opening, timeout: limit }),
            )
        }),
{
}

/// An answer that is none to what an opening asks for changes nothing, and a
/// result stays.
pub proof fn law_open_hears_only_its_answers<S, E>(
    state: Opening<S, E>,
    answer: OpenAnswer<S, E>,
)
    requires
        match state {
            Opening::Open { .. } => !(answer is Opened) && !(answer is Failed),
            Opening::Spawn { .. } => !(answer is Done),
            Opening::Wait { .. } => answer is Done,
            Opening::Release { .. } => !(answer is Done),
            Opening::Join { .. } => !(answer is Done),
            Opening::Finished(_) => true,
        },
    ensures
        open_step(state, answer) == state,
{
}

/// A send connects to its path, writes all of its bytes to that connection,
/// flushes it, and succeeds; where one of the three fails, that step is the
/// failure, with the system's error.
pub proof fn law_send_connects_writes_and_flushes<S, E>(
    first: Sending<S, E>,
    path: Seq<Unit>,
    bytes: Seq<u8>,
    stream: S,
    error: E,
)
    requires
        sending_begins(first, path, bytes),
    ensures
        ({
            let write = send_step(first, SendAnswer::Connected(stream));
            let flush = send_step(write, SendAnswer::Done);
            &&& first matches Sending::Connect { path: at, bytes: all } && at@ == path && all@
                == bytes
            &&& write matches Sending::Write { stream: to, bytes: all } && to == stream && all@
                == bytes
            &&& flush matches Sending::Flush { stream: to } && to == stream
            &&& send_step(flush, SendAnswer::Done) == Sending::<S, E>::Finished(Ok(()))
            &&& send_step(first, SendAnswer::Failed(error)) == Sending::<S, E>::Finished(
                Err(Failure::System { at: Step::Connecting, error }),
            )
            &&& send_step(write, SendAnswer::Failed(error)) == Sending::<S, E>::Finished(
                Err(Failure::System { at: Step::Writing, error }),
            )
            &&& send_step(flush, SendAnswer::Failed(error)) == Sending::<S, E>::Finished(
                Err(Failure::System { at: Step::Flushing, error }),
            )
        }),
{
}

/// An answer that is none to what a send asks for changes nothing, and a result
/// stays.
pub proof fn law_send_hears_only_its_answers<S, E>(
    state: Sending<S, E>,
    answer: SendAnswer<S, E>,
)
    requires
        match state {
            Sending::Connect { .. } => answer is Done,
            Sending::Write { .. } => answer is Connected,
            Sending::Flush { .. } => answer is Connected,
            Sending::Finished(_) => true,
        },
    ensures
        send_step(state, answer) == state,
{
}

/// What is read to the end is the result, whatever the bytes and however many,
/// and a read that fails is the failure.
pub proof fn law_read_stream_is_the_result<S, E>(stream: S, bytes: Vec<u8>, error: E)
    ensures
        reception_step(Reception::<S, E>::Read { stream }, ReceptionAnswer::Read(bytes))
            == Reception::<S, E>::Finished(Ok(bytes)),
        reception_step(Reception::<S, E>::Read { stream }, ReceptionAnswer::Failed(error))
            == Reception::<S, E>::Finished(Err(Failure::System { at: Step::Reading, error })),
{
}

/// A reception goes through its wait answer by answer. The connection that the
/// wait ends with is read; the failure that it ends with is the reception's.
pub proof fn law_reception_goes_through_its_wait<S, E>(
    accepting: Accepting<S, E>,
    accepted: AcceptAnswer<S, E>,
    opening: Opening<S, E>,
    opened: OpenAnswer<S, E>,
)
    ensures
        ({
            let wait = accept_step(accepting, accepted);
            let after = reception_step(
                Reception::Accept(accepting),
                ReceptionAnswer::Accept(accepted),
            );
            &&& wait matches Accepting::Finished(Ok(stream)) ==> after == (Reception::<S, E>::Read {
                stream,
            })
            &&& wait matches Accepting::Finished(Err(failure)) ==> after == Reception::<
                S,
                E,
            >::Finished(Err(failure))
            &&& !(wait is Finished) ==> after == Reception::<S, E>::Accept(wait)
        }),
        ({
            let wait = open_step(opening, opened);
            let after = reception_step(Reception::Open(opening), ReceptionAnswer::Open(opened));
            &&& wait matches Opening::Finished(Ok(stream)) ==> after == (Reception::<S, E>::Read {
                stream,
            })
            &&& wait matches Opening::Finished(Err(failure)) ==> after == Reception::<
                S,
                E,
            >::Finished(Err(failure))
            &&& !(wait is Finished) ==> after == Reception::<S, E>::Open(wait)
        }),
{
}

/// An answer that is none to what a reception asks for changes nothing, and a
/// result stays.
pub proof fn law_reception_hears_only_its_answers<S, E>(
    state: Reception<S, E>,
    answer: ReceptionAnswer<S, E>,
)
    requires
        match state {
            Reception::Accept(_) => !(answer is Accept),
            Reception::Open(_) => !(answer is Open),
            Reception::Read { .. } => answer is Accept || answer is Open,
            Reception::Finished(_) => true,
        },
    ensures
        reception_step(state, answer) == state,
{
}

/// A reception under a timeout never waits without a limit: from its first state
/// on, each wait is one under that timeout, on the pipe's own path, and a failure
/// for want of a writer tells that timeout.
pub proof fn law_timed_reception_is_bounded<S, E>(
    states: Seq<Reception<S, E>>,
    answers: Seq<ReceptionAnswer<S, E>>,
    path: Seq<Unit>,
    system: System,
    limit: Span,
    i: int,
)
    requires
        states.len() == answers.len() + 1,
        reception_begins(states[0], path, system, Some(limit)),
        forall|k: int| 0 <= k < answers.len() ==> #[trigger] states[k + 1] == reception_step(
            states[k],
            answers[k],
        ),
        0 <= i < states.len(),
    ensures
        system == System::Windows ==> states[0] == Reception::<S, E>::Accept(
            Accepting::Unblock { timeout: limit },
        ),
        system == System::Unix ==> (states[0] matches Reception::Open(
            Opening::Spawn { path: at, timeout },
        ) && at@ == path && timeout == limit),
        match states[i] {
            Reception::Accept(wait) => system == System::Windows && match wait {
                Accepting::Accept => false,
                Accepting::Unblock { timeout } => timeout == limit,
                Accepting::Poll { timeout } => timeout == limit,
                Accepting::Nap { timeout, nap } => timeout == limit && nap.nanos == 2_000_000,
                Accepting::Restore { accepted } => accepted matches Err(
                    Failure::NoWriter { timeout, .. },
                ) ==> timeout == limit,
                Accepting::Settle { .. } => true,
                Accepting::Finished(_) => false,
            },
            Reception::Open(wait) => system == System::Unix && match wait {
                Opening::Open { .. } => false,
                Opening::Spawn { path: at, timeout } => at@ == path && timeout == limit,
                Opening::Wait { path: at, timeout } => at@ == path && timeout == limit,
                Opening::Release { path: at, timeout } => at@ == path && timeout == limit,
                Opening::Join { opened } => opened matches Err(Failure::NoWriter { timeout, .. })
                    ==> timeout == limit,
                Opening::Finished(_) => false,
            },
            Reception::Read { .. } => true,
            Reception::Finished(read) => read matches Err(Failure::NoWriter { timeout, .. })
                ==> timeout == limit,
        },
    decreases i,
{
    if i > 0 {
        law_timed_reception_is_bounded(states, answers, path, system, limit, i - 1);
        assert(states[(i - 1) + 1] == reception_step(states[i - 1], answers[i - 1]));
    }
}

/// A reception without a timeout waits for as long as it takes, in one blocking
/// accept or one blocking open of the pipe's own path, and never fails for want
/// of a writer.
pub proof fn law_untimed_reception_waits<S, E>(
    states: Seq<Reception<S, E>>,
    answers: Seq<ReceptionAnswer<S, E>>,
    path: Seq<Unit>,
    system: System,
    i: int,
)
    requires
        states.len() == answers.len() + 1,
        reception_begins(states[0], path, system, None),
        forall|k: int| 0 <= k < answers.len() ==> #[trigger] states[k + 1] == reception_step(
            states[k],
            answers[k],
        ),
        0 <= i < states.len(),
    ensures
        system == System::Windows ==> states[0] == Reception::<S, E>::Accept(Accepting::Accept),
        system == System::Unix ==> (states[0] matches Reception::Open(Opening::Open { path: at })
            && at@ == path),
        match states[i] {
            Reception::Accept(_) | Reception::Open(_) => states[i] == states[0],
            Reception::Read { .. } => true,
            Reception::Finished(read) => !(read matches Err(Failure::NoWriter { .. })),
        },
    decreases i,
{
    if i > 0 {
        law_untimed_reception_waits(states, answers, path, system, i - 1);
        assert(states[(i - 1) + 1] == reception_step(states[i - 1], answers[i - 1]));
    }
}

/// Where no writer comes to a FIFO and the time is up, a reception under a
/// timeout ends, and says that no writer came within that timeout. A writer that
/// comes in time is read.
pub proof fn law_fifo_reception_ends<S, E>(
    first: Reception<S, E>,
    path: Seq<Unit>,
    limit: Span,
    stream: S,
    bytes: Vec<u8>,
)
    requires
        reception_begins(first, path, System::Unix, Some(limit)),
    ensures
        ({
            let wait = reception_step(first, ReceptionAnswer::Open(OpenAnswer::Done));
            let late = reception_step(wait, ReceptionAnswer::Open(OpenAnswer::TimedOut));
            let released = reception_step(late, ReceptionAnswer::Open(OpenAnswer::Done));
            let opened = reception_step(wait, ReceptionAnswer::Open(OpenAnswer::Opened(stream)));
            let read = reception_step(opened, ReceptionAnswer::Open(OpenAnswer::Done));
            &&& reception_step(released, ReceptionAnswer::Open(OpenAnswer::Done)) == Reception::<
                S,
                E,
            >::Finished(Err(Failure::NoWriter { at: Step::Opening, timeout: limit }))
            &&& read == (Reception::<S, E>::Read { stream })
            &&& reception_step(read, ReceptionAnswer::Read(bytes)) == Reception::<S, E>::Finished(
                Ok(bytes),
            )
        }),
{
}

/// However often a poll of a Windows pipe finds no writer before the timeout, a
/// reception goes on polling; a poll that finds none once it has passed ends the
/// reception, which says that no writer came within that timeout, and a writer
/// that is there is read.
pub proof fn law_windows_reception_ends<S, E>(
    states: Seq<Reception<S, E>>,
    answers: Seq<ReceptionAnswer<S, E>>,
    path: Seq<Unit>,
    limit: Span,
    n: int,
    waited: Span,
    stream: S,
    bytes: Vec<u8>,
)
    requires
        0 <= n,
        answers.len() >= 1 + 2 * n,
        states.len() == answers.len() + 1,
        reception_begins(states[0], path, System::Windows, Some(limit)),
        forall|i: int| 0 <= i < answers.len() ==> #[trigger] states[i + 1] == reception_step(
            states[i],
            answers[i],
        ),
        answers[0] == ReceptionAnswer::<S, E>::Accept(AcceptAnswer::Done),
        forall|k: int| #![trigger answers[1 + 2 * k]]
            0 <= k < n ==> (answers[1 + 2 * k] matches ReceptionAnswer::Accept(
                AcceptAnswer::WouldBlock { waited: before },
            ) && before.nanos < limit.nanos) && answers[2 + 2 * k] == ReceptionAnswer::<
                S,
                E,
            >::Accept(AcceptAnswer::Done),
        waited.nanos >= limit.nanos,
    ensures
        ({
            let poll = states[1 + 2 * n];
            let done = ReceptionAnswer::<S, E>::Accept(AcceptAnswer::Done);
            let late = reception_step(
                poll,
                ReceptionAnswer::Accept(AcceptAnswer::WouldBlock { waited }),
            );
            let taken = reception_step(
                poll,
                ReceptionAnswer::Accept(AcceptAnswer::Accepted(stream)),
            );
            let read = reception_step(reception_step(taken, done), done);
            &&& poll == Reception::<S, E>::Accept(Accepting::Poll { timeout: limit })
            &&& reception_step(late, done) == Reception::<S, E>::Finished(
                Err(Failure::NoWriter { at: Step::Accepting, timeout: limit }),
            )
            &&& read == (Reception::<S, E>::Read { stream })
            &&& reception_step(read, ReceptionAnswer::Read(bytes)) == Reception::<S, E>::Finished(
                Ok(bytes),
            )
        }),
    decreases n,
{
    assert(states[0int + 1] == reception_step(states[0], answers[0]));
    if n > 0 {
        law_windows_reception_ends(states, answers, path, limit, n - 1, waited, stream, bytes);
        let k = n - 1;
        assert(answers[1 + 2 * k] is Accept);
        assert(states[(1 + 2 * k) + 1] == reception_step(states[1 + 2 * k], answers[1 + 2 * k]));
        assert(states[(2 + 2 * k) + 1] == reception_step(states[2 + 2 * k], answers[2 + 2 * k]));
    }
}

/// A reception without a timeout reads the connection that comes.
pub proof fn law_untimed_reception_reads<S, E>(
    first: Reception<S, E>,
    path: Seq<Unit>,
    system: System,
    stream: S,
    bytes: Vec<u8>,
)
    requires
        reception_begins(first, path, system, None),
    ensures
        ({
            let read = match system {
                System::Windows => reception_step(
                    first,
                    ReceptionAnswer::Accept(AcceptAnswer::Accepted(stream)),
                ),
                System::Unix => reception_step(
                    first,
                    ReceptionAnswer::Open(OpenAnswer::Opened(stream)),
                ),
            };
            &&& read == (Reception::<S, E>::Read { stream })
            &&& reception_step(read, ReceptionAnswer::Read(bytes)) == Reception::<S, E>::Finished(
                Ok(bytes),
            )
        }),
{
}

} // verus!
