//! Laws of the wait for a writer: when it ends, and what it leaves behind.

use vstd::prelude::*;

use crate::failure::{Failure, Step};
use crate::host::Span;
use crate::path::PipePath;
use crate::pipe::accepting::{accept_start, accept_step, AcceptAnswer, Accepting};
use crate::pipe::opening::{open_start, open_step, OpenAnswer, Opening};

verus! {

/// Where a wait on a Windows pipe stands after `answers`.
pub open spec fn accept_run<S, E>(
    timeout: Option<Span>,
    answers: Seq<AcceptAnswer<S, E>>,
) -> Accepting<S, E>
    decreases answers.len(),
{
    if answers.len() == 0 {
        accept_start(timeout)
    } else {
        accept_step(accept_run(timeout, answers.drop_last()), answers.last())
    }
}

/// Which ends of a Windows pipe block.
pub struct Modes {
    pub listener_blocks: bool,
    pub stream_blocks: bool,
}

/// The modes after `answer` came to what `state` asks for. A connection begins
/// in the mode its listener is in.
pub open spec fn modes_step<S, E>(
    modes: Modes,
    state: Accepting<S, E>,
    answer: AcceptAnswer<S, E>,
) -> Modes {
    match (state, answer) {
        (Accepting::Accept, AcceptAnswer::Accepted(_)) => Modes {
            stream_blocks: modes.listener_blocks,
            ..modes
        },
        (Accepting::Poll { .. }, AcceptAnswer::Accepted(_)) => Modes {
            stream_blocks: modes.listener_blocks,
            ..modes
        },
        (Accepting::Unblock { .. }, AcceptAnswer::Done) => Modes {
            listener_blocks: false,
            ..modes
        },
        (Accepting::Restore { .. }, AcceptAnswer::Done) => Modes { listener_blocks: true, ..modes },
        (Accepting::Settle { .. }, AcceptAnswer::Done) => Modes { stream_blocks: true, ..modes },
        _ => modes,
    }
}

/// The modes after `answers`, of a listener that blocks to begin with.
pub open spec fn modes_run<S, E>(
    timeout: Option<Span>,
    answers: Seq<AcceptAnswer<S, E>>,
) -> Modes
    decreases answers.len(),
{
    if answers.len() == 0 {
        Modes { listener_blocks: true, stream_blocks: false }
    } else {
        modes_step(
            modes_run(timeout, answers.drop_last()),
            accept_run(timeout, answers.drop_last()),
            answers.last(),
        )
    }
}

/// The listener and the connection are handed back blocking on every way out;
/// only where the system would not switch the listener's mode may it be left
/// as it was.
pub proof fn law_accept_hands_back_blocking<S, E>(
    timeout: Option<Span>,
    answers: Seq<AcceptAnswer<S, E>>,
)
    ensures
        match accept_run(timeout, answers) {
            Accepting::Finished(Ok(_)) => {
                &&& modes_run(timeout, answers).listener_blocks
                &&& modes_run(timeout, answers).stream_blocks
            },
            Accepting::Finished(Err(failure)) => {
                ||| modes_run(timeout, answers).listener_blocks
                ||| failure matches Failure::System { at, .. } && at == Step::AwaitingWriter
            },
            _ => true,
        },
{
    lemma_modes(timeout, answers);
}

proof fn lemma_modes<S, E>(timeout: Option<Span>, answers: Seq<AcceptAnswer<S, E>>)
    ensures
        ({
            let modes = modes_run(timeout, answers);
            match accept_run(timeout, answers) {
                Accepting::Accept => modes.listener_blocks,
                Accepting::Unblock { .. } => modes.listener_blocks,
                Accepting::Settle { .. } => modes.listener_blocks,
                Accepting::Finished(Ok(_)) => modes.listener_blocks && modes.stream_blocks,
                Accepting::Finished(Err(failure)) => modes.listener_blocks || (failure matches
                    Failure::System { at, .. } && at == Step::AwaitingWriter),
                _ => true,
            }
        }),
    decreases answers.len(),
{
    if answers.len() > 0 {
        lemma_modes(timeout, answers.drop_last());
    }
}

/// A wait on a Windows pipe gives up only where there is a timeout and a poll
/// found no writer after it had passed.
pub proof fn law_accept_gives_up_late<S, E>(
    timeout: Option<Span>,
    answers: Seq<AcceptAnswer<S, E>>,
)
    ensures
        accept_run(timeout, answers) matches Accepting::Finished(
            Err(Failure::NoWriter { at, timeout: limit }),
        ) ==> {
            &&& at == Step::Accepting
            &&& timeout == Some(limit)
            &&& exists|i: int| #![trigger answers[i]]
                0 <= i < answers.len() && (answers[i] matches AcceptAnswer::WouldBlock { waited }
                    && waited.nanos >= limit.nanos)
        },
{
    lemma_gives_up_late(timeout, answers);
}

/// Whether `failure` is that of a wait whose timeout passed without a writer.
spec fn late<S, E>(
    failure: Failure<E>,
    timeout: Option<Span>,
    answers: Seq<AcceptAnswer<S, E>>,
) -> bool {
    failure matches Failure::NoWriter { at, timeout: limit } ==> {
        &&& at == Step::Accepting
        &&& timeout == Some(limit)
        &&& exists|i: int| #![trigger answers[i]]
            0 <= i < answers.len() && (answers[i] matches AcceptAnswer::WouldBlock { waited }
                && waited.nanos >= limit.nanos)
    }
}

proof fn lemma_gives_up_late<S, E>(timeout: Option<Span>, answers: Seq<AcceptAnswer<S, E>>)
    ensures
        match accept_run(timeout, answers) {
            Accepting::Accept => true,
            Accepting::Unblock { timeout: limit } => timeout == Some(limit),
            Accepting::Poll { timeout: limit } => timeout == Some(limit),
            Accepting::Nap { timeout: limit, .. } => timeout == Some(limit),
            Accepting::Restore { accepted: Err(failure) } => late(failure, timeout, answers),
            Accepting::Finished(Err(failure)) => late(failure, timeout, answers),
            _ => true,
        },
    decreases answers.len(),
{
    if answers.len() > 0 {
        let before = answers.drop_last();
        lemma_gives_up_late(timeout, before);
        assert forall|failure: Failure<E>| late(failure, timeout, before) implies late(
            failure,
            timeout,
            answers,
        ) by {
            if let Failure::NoWriter { at, timeout: limit } = failure {
                let i = choose|i: int| #![trigger before[i]]
                    0 <= i < before.len() && (before[i] matches AcceptAnswer::WouldBlock { waited }
                        && waited.nanos >= limit.nanos);
                assert(answers[i] == before[i]);
            }
        }
        assert(answers[answers.len() - 1] == answers.last());
    }
}

/// A poll that finds no writer once the timeout has passed is the last: the
/// wait ends as soon as the listener is back in its mode, or cannot be put
/// back.
pub proof fn law_accept_ends_at_its_timeout<S, E>(
    limit: Span,
    answers: Seq<AcceptAnswer<S, E>>,
    waited: Span,
    error: E,
)
    requires
        accept_run(Some(limit), answers) == (Accepting::<S, E>::Poll { timeout: limit }),
        waited.nanos >= limit.nanos,
    ensures
        accept_run(
            Some(limit),
            answers.push(AcceptAnswer::WouldBlock { waited }).push(AcceptAnswer::Done),
        ) == Accepting::<S, E>::Finished(
            Err(Failure::NoWriter { at: Step::Accepting, timeout: limit }),
        ),
        accept_run(
            Some(limit),
            answers.push(AcceptAnswer::WouldBlock { waited }).push(AcceptAnswer::Failed(error)),
        ) == Accepting::<S, E>::Finished(
            Err(Failure::System { at: Step::AwaitingWriter, error }),
        ),
{
    let polled = answers.push(AcceptAnswer::WouldBlock { waited });
    lemma_accept_next(Some(limit), answers, AcceptAnswer::WouldBlock { waited });
    lemma_accept_next(Some(limit), polled, AcceptAnswer::Done);
    lemma_accept_next(Some(limit), polled, AcceptAnswer::Failed(error));
}

proof fn lemma_accept_next<S, E>(
    timeout: Option<Span>,
    answers: Seq<AcceptAnswer<S, E>>,
    answer: AcceptAnswer<S, E>,
)
    ensures
        accept_run(timeout, answers.push(answer)) == accept_step(
            accept_run(timeout, answers),
            answer,
        ),
{
    assert(answers.push(answer).drop_last() =~= answers);
}

/// The answers to polls that find no writer after each of `waits`, each with
/// the nap that follows it, once the listener is non-blocking.
pub open spec fn vain_polls<S, E>(waits: Seq<Span>) -> Seq<AcceptAnswer<S, E>>
    decreases waits.len(),
{
    if waits.len() == 0 {
        seq![AcceptAnswer::Done]
    } else {
        vain_polls(waits.drop_last()).push(AcceptAnswer::WouldBlock { waited: waits.last() }).push(
            AcceptAnswer::Done,
        )
    }
}

/// However often a poll finds no writer before the timeout has passed, a writer
/// that is there at the next one is taken, and its connection is the result.
pub proof fn law_accept_takes_a_writer_in_time<S, E>(limit: Span, waits: Seq<Span>, stream: S)
    requires
        forall|i: int| 0 <= i < waits.len() ==> #[trigger] waits[i].nanos < limit.nanos,
    ensures
        accept_run(
            Some(limit),
            vain_polls::<S, E>(waits).push(AcceptAnswer::Accepted(stream)).push(
                AcceptAnswer::Done,
            ).push(AcceptAnswer::Done),
        ) == Accepting::<S, E>::Finished(Ok(stream)),
{
    lemma_vain_polls::<S, E>(limit, waits);
    let polls = vain_polls::<S, E>(waits);
    let taken = polls.push(AcceptAnswer::Accepted(stream));
    let restored = taken.push(AcceptAnswer::Done);
    lemma_accept_next(Some(limit), polls, AcceptAnswer::Accepted(stream));
    lemma_accept_next(Some(limit), taken, AcceptAnswer::Done);
    lemma_accept_next(Some(limit), restored, AcceptAnswer::Done);
}

proof fn lemma_vain_polls<S, E>(limit: Span, waits: Seq<Span>)
    requires
        forall|i: int| 0 <= i < waits.len() ==> #[trigger] waits[i].nanos < limit.nanos,
    ensures
        accept_run(Some(limit), vain_polls::<S, E>(waits)) == (Accepting::<S, E>::Poll {
            timeout: limit,
        }),
    decreases waits.len(),
{
    let polls = vain_polls::<S, E>(waits);
    if waits.len() == 0 {
        let none = Seq::<AcceptAnswer<S, E>>::empty();
        assert(polls =~= none.push(AcceptAnswer::Done));
        lemma_accept_next(Some(limit), none, AcceptAnswer::Done);
    } else {
        let earlier = waits.drop_last();
        let before = vain_polls::<S, E>(earlier);
        let polled = before.push(AcceptAnswer::WouldBlock { waited: waits.last() });
        assert forall|i: int| 0 <= i < earlier.len() implies #[trigger] earlier[i].nanos
            < limit.nanos by {
            assert(earlier[i] == waits[i]);
        }
        lemma_vain_polls::<S, E>(limit, earlier);
        assert(waits[waits.len() - 1].nanos < limit.nanos);
        lemma_accept_next(Some(limit), before, AcceptAnswer::WouldBlock { waited: waits.last() });
        lemma_accept_next(Some(limit), polled, AcceptAnswer::Done);
    }
}

/// The connection a wait on a Windows pipe hands back is one that the pipe
/// gave.
pub proof fn law_accepted_stream_is_the_pipes<S, E>(
    timeout: Option<Span>,
    answers: Seq<AcceptAnswer<S, E>>,
)
    ensures
        accept_run(timeout, answers) matches Accepting::Finished(Ok(stream)) ==> answers.contains(
            AcceptAnswer::Accepted(stream),
        ),
{
    lemma_accepted_stream(timeout, answers);
}

proof fn lemma_accepted_stream<S, E>(timeout: Option<Span>, answers: Seq<AcceptAnswer<S, E>>)
    ensures
        match accept_run(timeout, answers) {
            Accepting::Restore { accepted: Ok(stream) } => answers.contains(
                AcceptAnswer::Accepted(stream),
            ),
            Accepting::Settle { stream } => answers.contains(AcceptAnswer::Accepted(stream)),
            Accepting::Finished(Ok(stream)) => answers.contains(AcceptAnswer::Accepted(stream)),
            _ => true,
        },
    decreases answers.len(),
{
    if answers.len() > 0 {
        let before = answers.drop_last();
        lemma_accepted_stream(timeout, before);
        lemma_answers_stay(answers);
    }
}

/// What was answered before the last answer was answered, and so was the last.
proof fn lemma_answers_stay<A>(answers: Seq<A>)
    requires
        answers.len() > 0,
    ensures
        forall|answer: A|
            answers.drop_last().contains(answer) ==> #[trigger] answers.contains(answer),
        answers.contains(answers.last()),
{
    let before = answers.drop_last();
    assert forall|answer: A| before.contains(answer) implies #[trigger] answers.contains(
        answer,
    ) by {
        let i = choose|i: int| 0 <= i < before.len() && before[i] == answer;
        assert(answers[i] == answer);
    }
    assert(answers[answers.len() - 1] == answers.last());
}

/// Where the opening of a FIFO stands after `answers`.
pub open spec fn open_run<S, E>(
    path: PipePath,
    timeout: Option<Span>,
    answers: Seq<OpenAnswer<S, E>>,
) -> Opening<S, E>
    decreases answers.len(),
{
    if answers.len() == 0 {
        open_start(path, timeout)
    } else {
        open_step(open_run(path, timeout, answers.drop_last()), answers.last())
    }
}

/// The thread that opens a FIFO.
pub struct Opener {
    /// It was started, and not joined yet.
    pub alive: bool,
    /// It may still wait for a writer: it has not spoken, and no releasing open
    /// went through.
    pub stuck: bool,
}

/// The thread after `answer` came to what `state` asks for. Whether a releasing
/// open goes through, `released` says: where the FIFO was unlinked meanwhile,
/// it does not.
pub open spec fn opener_step<S, E>(
    opener: Opener,
    state: Opening<S, E>,
    answer: OpenAnswer<S, E>,
    released: bool,
) -> Opener {
    match (state, answer) {
        (Opening::Spawn { .. }, OpenAnswer::Done) => Opener { alive: true, stuck: true },
        (Opening::Wait { .. }, OpenAnswer::Opened(_)) => Opener { stuck: false, ..opener },
        (Opening::Wait { .. }, OpenAnswer::Failed(_)) => Opener { stuck: false, ..opener },
        (Opening::Wait { .. }, OpenAnswer::Stopped) => Opener { stuck: false, ..opener },
        (Opening::Release { .. }, OpenAnswer::Done) => Opener {
            stuck: opener.stuck && !released,
            ..opener
        },
        (Opening::Join { .. }, OpenAnswer::Done) => Opener { alive: false, ..opener },
        _ => opener,
    }
}

/// The thread after `answers`; there is none to begin with.
pub open spec fn opener_run<S, E>(
    path: PipePath,
    timeout: Option<Span>,
    answers: Seq<OpenAnswer<S, E>>,
    released: bool,
) -> Opener
    decreases answers.len(),
{
    if answers.len() == 0 {
        Opener { alive: false, stuck: false }
    } else {
        opener_step(
            opener_run(path, timeout, answers.drop_last(), released),
            open_run(path, timeout, answers.drop_last()),
            answers.last(),
            released,
        )
    }
}

/// No thread is left behind when the opening of a FIFO ends, however it ends.
/// A thread is joined only once nothing keeps it from ending, where the
/// releasing open goes through; where it does not, that fails only for a wait
/// whose time was up.
pub proof fn law_open_leaves_no_thread<S, E>(
    path: PipePath,
    timeout: Option<Span>,
    answers: Seq<OpenAnswer<S, E>>,
    released: bool,
)
    ensures
        open_run(path, timeout, answers) is Finished ==> !opener_run(
            path,
            timeout,
            answers,
            released,
        ).alive,
        open_run(path, timeout, answers) is Join && opener_run(
            path,
            timeout,
            answers,
            released,
        ).stuck ==> !released && answers.contains(OpenAnswer::TimedOut),
{
    lemma_opener(path, timeout, answers, released);
    lemma_open_outcome(path, timeout, answers);
}

proof fn lemma_opener<S, E>(
    path: PipePath,
    timeout: Option<Span>,
    answers: Seq<OpenAnswer<S, E>>,
    released: bool,
)
    ensures
        ({
            let opener = opener_run(path, timeout, answers, released);
            match open_run(path, timeout, answers) {
                Opening::Open { .. } => !opener.alive,
                Opening::Join { opened } => opener.stuck ==> !released && (opened matches Err(
                    Failure::NoWriter { .. },
                )),
                Opening::Finished(_) => !opener.alive,
                _ => true,
            }
        }),
    decreases answers.len(),
{
    if answers.len() > 0 {
        lemma_opener(path, timeout, answers.drop_last(), released);
    }
}

/// The opening of a FIFO gives up for want of a writer only where it had a
/// timeout and the time was up, and the file it hands back is one that was
/// opened.
pub proof fn law_open_gives_up_when_time_is_up<S, E>(
    path: PipePath,
    timeout: Option<Span>,
    answers: Seq<OpenAnswer<S, E>>,
)
    ensures
        open_run(path, timeout, answers) matches Opening::Finished(
            Err(Failure::NoWriter { at, timeout: limit }),
        ) ==> at == Step::Opening && timeout == Some(limit) && answers.contains(
            OpenAnswer::TimedOut,
        ),
        open_run(path, timeout, answers) matches Opening::Finished(Ok(stream)) ==> answers.contains(
            OpenAnswer::Opened(stream),
        ),
{
    lemma_open_outcome(path, timeout, answers);
}

/// Whether `opened` is an outcome that `answers` account for.
spec fn accounted<S, E>(
    opened: Result<S, Failure<E>>,
    timeout: Option<Span>,
    answers: Seq<OpenAnswer<S, E>>,
) -> bool {
    match opened {
        Ok(stream) => answers.contains(OpenAnswer::Opened(stream)),
        Err(Failure::NoWriter { at, timeout: limit }) => at == Step::Opening && timeout == Some(
            limit,
        ) && answers.contains(OpenAnswer::TimedOut),
        Err(_) => true,
    }
}

proof fn lemma_open_outcome<S, E>(
    path: PipePath,
    timeout: Option<Span>,
    answers: Seq<OpenAnswer<S, E>>,
)
    ensures
        match open_run(path, timeout, answers) {
            Opening::Open { .. } => true,
            Opening::Spawn { timeout: limit, .. } => timeout == Some(limit),
            Opening::Wait { timeout: limit, .. } => timeout == Some(limit),
            Opening::Release { timeout: limit, .. } => timeout == Some(limit) && answers.contains(
                OpenAnswer::TimedOut,
            ),
            Opening::Join { opened } => accounted(opened, timeout, answers),
            Opening::Finished(opened) => accounted(opened, timeout, answers),
        },
    decreases answers.len(),
{
    if answers.len() > 0 {
        let before = answers.drop_last();
        lemma_open_outcome(path, timeout, before);
        lemma_answers_stay(answers);
    }
}

/// What the opening of a FIFO under a timeout comes to, for each thing its
/// thread can say: the file, the system's error, nothing in time, or nothing
/// ever.
pub proof fn law_open_outcomes<S, E>(path: PipePath, limit: Span, stream: S, error: E)
    ensures
        open_run(
            path,
            Some(limit),
            seq![OpenAnswer::<S, E>::Done].push(OpenAnswer::Opened(stream)).push(OpenAnswer::Done),
        ) == Opening::<S, E>::Finished(Ok(stream)),
        open_run(
            path,
            Some(limit),
            seq![OpenAnswer::<S, E>::Done].push(OpenAnswer::Failed(error)).push(OpenAnswer::Done),
        ) == Opening::<S, E>::Finished(Err(Failure::System { at: Step::Opening, error })),
        open_run(
            path,
            Some(limit),
            seq![OpenAnswer::<S, E>::Done].push(OpenAnswer::TimedOut).push(OpenAnswer::Done).push(
                OpenAnswer::Done,
            ),
        ) == Opening::<S, E>::Finished(
            Err(Failure::NoWriter { at: Step::Opening, timeout: limit }),
        ),
        open_run(
            path,
            Some(limit),
            seq![OpenAnswer::<S, E>::Done].push(OpenAnswer::Stopped).push(OpenAnswer::Done),
        ) == Opening::<S, E>::Finished(Err(Failure::OpenerStopped)),
{
    let none = Seq::<OpenAnswer<S, E>>::empty();
    let started = none.push(OpenAnswer::Done);
    lemma_open_next(path, Some(limit), none, OpenAnswer::Done);
    lemma_open_next(path, Some(limit), started, OpenAnswer::Opened(stream));
    lemma_open_next(
        path,
        Some(limit),
        started.push(OpenAnswer::Opened(stream)),
        OpenAnswer::Done,
    );
    lemma_open_next(path, Some(limit), started, OpenAnswer::Failed(error));
    lemma_open_next(path, Some(limit), started.push(OpenAnswer::Failed(error)), OpenAnswer::Done);
    lemma_open_next(path, Some(limit), started, OpenAnswer::TimedOut);
    let released = started.push(OpenAnswer::TimedOut).push(OpenAnswer::Done);
    lemma_open_next(path, Some(limit), started.push(OpenAnswer::TimedOut), OpenAnswer::Done);
    lemma_open_next(path, Some(limit), released, OpenAnswer::Done);
    lemma_open_next(path, Some(limit), started, OpenAnswer::Stopped);
    lemma_open_next(path, Some(limit), started.push(OpenAnswer::Stopped), OpenAnswer::Done);
}

proof fn lemma_open_next<S, E>(
    path: PipePath,
    timeout: Option<Span>,
    answers: Seq<OpenAnswer<S, E>>,
    answer: OpenAnswer<S, E>,
)
    ensures
        open_run(path, timeout, answers.push(answer)) == open_step(
            open_run(path, timeout, answers),
            answer,
        ),
{
    assert(answers.push(answer).drop_last() =~= answers);
}

} // verus!
