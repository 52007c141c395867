use crate::device::{is_first_match, no_match};
use crate::error::ErrorView;
use crate::gate::forwarded;
use crate::protocol::{start_outcome, CommandView, ResponseView};
use crate::worker::{next_step, reply_after_open, state_after_open, StepView, WorkerView};
use vstd::prelude::*;

verus! {

/// One thing that happens to a worker. A capture is a sequence of these, in
/// the order in which they happen: the worker never does two at once.
pub enum Occurrence<T> {
    /// The worker takes an order from its queue. `outcome` is how the
    /// backend fares if the order makes the worker open a stream.
    Order { command: CommandView, outcome: Result<(), ErrorView> },
    /// The command queue is closed: every sender is gone.
    QueueClosed,
    /// The backend hands a block of samples to the callback of the stream.
    Block { block: Seq<T> },
}

/// A capture as seen from outside.
pub struct Session<T> {
    /// The worker, or `None` once its thread has ended.
    pub worker: Option<WorkerView>,
    /// The blocks that the sink has received, oldest first.
    pub sink: Seq<Seq<T>>,
    /// The answers sent to callers of `start`, oldest first.
    pub replies: Seq<ResponseView>,
}

impl<T> Session<T> {
    /// A capture whose worker has just been made.
    pub open spec fn fresh() -> Session<T> {
        Session { worker: Some(WorkerView::idle()), sink: Seq::empty(), replies: Seq::empty() }
    }

    /// Whether the worker holds a stream.
    pub open spec fn streaming(self) -> bool {
        self.worker matches Some(worker) && worker.streaming
    }

    /// Whether the worker lives and its pause switch is set.
    pub open spec fn paused(self) -> bool {
        self.worker matches Some(worker) && worker.paused
    }

    /// Whether blocks reach the sink: the worker holds a stream and its
    /// pause switch is not set.
    pub open spec fn capturing(self) -> bool {
        self.worker matches Some(worker) && worker.capturing()
    }
}

/// The capture after a live worker has dealt with `input`.
pub open spec fn after_input<T>(
    session: Session<T>,
    worker: WorkerView,
    input: Option<CommandView>,
    outcome: Result<(), ErrorView>,
) -> Session<T> {
    match next_step(worker, input) {
        StepView::Wait(next) => Session {
            worker: Some(next),
            sink: session.sink,
            replies: session.replies,
        },
        StepView::Open(pending) => Session {
            worker: Some(state_after_open(pending, outcome)),
            sink: session.sink,
            replies: session.replies.push(reply_after_open(outcome)),
        },
        StepView::Exit => Session { worker: None, sink: session.sink, replies: session.replies },
    }
}

/// The capture after one more occurrence. Only a worker that holds a stream
/// has a callback for blocks to arrive at; a worker that has ended does
/// nothing any more.
pub open spec fn after<T>(session: Session<T>, occurrence: Occurrence<T>) -> Session<T> {
    match session.worker {
        None => session,
        Some(worker) => match occurrence {
            Occurrence::Order { command, outcome } => after_input(
                session,
                worker,
                Some(command),
                outcome,
            ),
            Occurrence::QueueClosed => after_input(session, worker, None, Ok(())),
            Occurrence::Block { block } => match forwarded(worker.paused, block) {
                Some(copy) if worker.streaming => Session {
                    worker: session.worker,
                    sink: session.sink.push(copy),
                    replies: session.replies,
                },
                _ => session,
            },
        },
    }
}

/// The capture after a whole sequence of occurrences.
pub open spec fn run<T>(session: Session<T>, trace: Seq<Occurrence<T>>) -> Session<T>
    decreases trace.len(),
{
    if trace.len() == 0 {
        session
    } else {
        after(run(session, trace.drop_last()), trace.last())
    }
}

/// Whether an occurrence is `command` being taken from the queue.
pub open spec fn is_order<T>(occurrence: Occurrence<T>, command: CommandView) -> bool {
    occurrence matches Occurrence::Order { command: taken, .. } && taken == command
}

/// Whether an occurrence is a `Start` being taken from the queue.
pub open spec fn is_start<T>(occurrence: Occurrence<T>) -> bool {
    occurrence matches Occurrence::Order { command: CommandView::Start(_), .. }
}

/// Whether an occurrence leaves the stream alone: a pause, a resume, or a
/// block that arrives.
pub open spec fn keeps_stream<T>(occurrence: Occurrence<T>) -> bool {
    ||| is_order(occurrence, CommandView::Pause)
    ||| is_order(occurrence, CommandView::Resume)
    ||| occurrence is Block
}

/// What the pause switch says after `trace`: what the latest pause or resume
/// in it asked for, or `paused` where there was neither.
pub open spec fn switch_after<T>(paused: bool, trace: Seq<Occurrence<T>>) -> bool
    decreases trace.len(),
{
    if trace.len() == 0 {
        paused
    } else if is_order(trace.last(), CommandView::Pause) {
        true
    } else if is_order(trace.last(), CommandView::Resume) {
        false
    } else {
        switch_after(paused, trace.drop_last())
    }
}

/// The occurrences of a run of blocks that arrive one after the other.
pub open spec fn arrivals<T>(blocks: Seq<Seq<T>>) -> Seq<Occurrence<T>> {
    Seq::new(blocks.len(), |i: int| Occurrence::Block { block: blocks[i] })
}

/// A run can be cut anywhere: the second part goes on where the first ended.
pub proof fn lemma_run_split<T>(
    session: Session<T>,
    first: Seq<Occurrence<T>>,
    second: Seq<Occurrence<T>>,
)
    ensures
        run(session, first + second) == run(run(session, first), second),
    decreases second.len(),
{
    if second.len() > 0 {
        lemma_run_split(session, first, second.drop_last());
        assert((first + second).drop_last() =~= first + second.drop_last());
    }
}

/// One more occurrence at the end of a run is dealt with in the state that
/// the run ended in.
pub proof fn lemma_run_push<T>(
    session: Session<T>,
    trace: Seq<Occurrence<T>>,
    occurrence: Occurrence<T>,
)
    ensures
        run(session, trace.push(occurrence)) == after(run(session, trace), occurrence),
{
    assert(trace.push(occurrence).drop_last() =~= trace);
}

/// Blocks that arrive one after the other at a worker that holds a stream
/// all share one fate: each reaches the sink while the capture runs, none
/// does while it is paused. The worker is not touched by them.
pub proof fn lemma_blocks_arrive<T>(session: Session<T>, blocks: Seq<Seq<T>>)
    requires
        session.streaming(),
    ensures
        run(session, arrivals(blocks)) == (Session {
            worker: session.worker,
            sink: if session.paused() {
                session.sink
            } else {
                session.sink + blocks
            },
            replies: session.replies,
        }),
    decreases blocks.len(),
{
    if blocks.len() > 0 {
        let earlier = blocks.drop_last();
        lemma_blocks_arrive(session, earlier);
        assert(arrivals(blocks).drop_last() =~= arrivals(earlier));
        assert(session.sink + blocks =~= (session.sink + earlier).push(blocks.last()));
    }
}

/// While nothing but pauses, resumes and blocks happens, the worker keeps
/// its stream, and the pause switch follows the latest pause or resume.
pub proof fn lemma_switch_follows_orders<T>(session: Session<T>, trace: Seq<Occurrence<T>>)
    requires
        session.streaming(),
        forall|i: int| 0 <= i < trace.len() ==> keeps_stream(#[trigger] trace[i]),
    ensures
        run(session, trace).worker == Some(
            WorkerView {
                streaming: true,
                paused: switch_after(session.worker.unwrap().paused, trace),
            },
        ),
        run(session, trace).replies == session.replies,
    decreases trace.len(),
{
    if trace.len() > 0 {
        lemma_switch_follows_orders(session, trace.drop_last());
    }
}

/// After any sequence of pauses and resumes, with blocks arriving in
/// between, the next block reaches the sink exactly if the switch is not set
/// to "paused": if the latest of the pauses and resumes was a resume, or if
/// there was neither and the capture was running before. A block that is
/// turned away is gone; a block that passes arrives once, as it is, after
/// all that arrived before it.
pub proof fn law_pause_gates_blocks<T>(
    session: Session<T>,
    trace: Seq<Occurrence<T>>,
    block: Seq<T>,
)
    requires
        session.streaming(),
        forall|i: int| 0 <= i < trace.len() ==> keeps_stream(#[trigger] trace[i]),
    ensures
        run(session, trace.push(Occurrence::Block { block })).sink == if switch_after(
            session.worker.unwrap().paused,
            trace,
        ) {
            run(session, trace).sink
        } else {
            run(session, trace).sink.push(block)
        },
{
    lemma_switch_follows_orders(session, trace);
    lemma_run_push(session, trace, Occurrence::Block { block });
}

/// Blocks that arrive while the capture is paused never reach the sink,
/// whatever else happens, until a resume or a start is carried out.
pub proof fn law_paused_blocks_never_reach_sink<T>(
    session: Session<T>,
    trace: Seq<Occurrence<T>>,
)
    requires
        session.paused(),
        forall|i: int|
            0 <= i < trace.len() ==> !is_order(#[trigger] trace[i], CommandView::Resume)
                && !is_start(trace[i]),
    ensures
        run(session, trace).sink == session.sink,
        run(session, trace).worker is Some ==> run(session, trace).paused(),
    decreases trace.len(),
{
    if trace.len() > 0 {
        law_paused_blocks_never_reach_sink(session, trace.drop_last());
    }
}

/// Once a resume is carried out on a worker that holds a stream, every
/// block that arrives reaches the sink, beginning with the first: the sink
/// gets these blocks, in their order, and nothing else. No block that was
/// turned away during the pause shows up again.
pub proof fn law_resume_restores_delivery<T>(
    session: Session<T>,
    outcome: Result<(), ErrorView>,
    blocks: Seq<Seq<T>>,
)
    requires
        session.streaming(),
    ensures
        run(
            session,
            seq![Occurrence::Order { command: CommandView::Resume, outcome }] + arrivals(blocks),
        ).sink == session.sink + blocks,
        run(
            session,
            seq![Occurrence::Order { command: CommandView::Resume, outcome }] + arrivals(blocks),
        ).worker == Some(WorkerView { streaming: true, paused: false }),
{
    let resume = Occurrence::Order { command: CommandView::Resume, outcome };
    lemma_run_split(session, seq![resume], arrivals(blocks));
    lemma_run_push(session, Seq::empty(), resume);
    lemma_blocks_arrive(run(session, seq![resume]), blocks);
}

/// A capture that runs, is paused and is resumed delivers exactly what
/// arrived before the pause and after the resume: the sink gets the blocks
/// from before the pause, then at once the blocks from after the resume,
/// each once and in order. What arrived in between is dropped, not kept
/// back and not replayed.
pub proof fn law_pause_drops_and_resume_restores<T>(
    session: Session<T>,
    before: Seq<Seq<T>>,
    during: Seq<Seq<T>>,
    after: Seq<Seq<T>>,
    outcome: Result<(), ErrorView>,
)
    requires
        session.capturing(),
    ensures
        run(
            session,
            arrivals(before) + seq![Occurrence::Order { command: CommandView::Pause, outcome }]
                + arrivals(during) + seq![
                Occurrence::Order { command: CommandView::Resume, outcome },
            ] + arrivals(after),
        ).sink == session.sink + before + after,
{
    let pause = Occurrence::Order { command: CommandView::Pause, outcome };
    let resume = Occurrence::Order { command: CommandView::Resume, outcome };
    let first = arrivals(before);
    let second = first + seq![pause];
    let third = second + arrivals(during);
    let fourth = third + seq![resume];
    lemma_blocks_arrive(session, before);
    lemma_run_push(session, first, pause);
    assert(first.push(pause) =~= second);
    lemma_run_split(session, second, arrivals(during));
    lemma_blocks_arrive(run(session, second), during);
    lemma_run_push(session, third, resume);
    assert(third.push(resume) =~= fourth);
    lemma_run_split(session, fourth, arrivals(after));
    lemma_blocks_arrive(run(session, fourth), after);
}

/// Orders never put anything into the sink: only a block that arrives can.
/// In particular a resume replays nothing.
pub proof fn law_orders_deliver_nothing<T>(
    session: Session<T>,
    trace: Seq<Occurrence<T>>,
    occurrence: Occurrence<T>,
)
    requires
        !(occurrence is Block),
    ensures
        run(session, trace.push(occurrence)).sink == run(session, trace).sink,
{
    lemma_run_push(session, trace, occurrence);
}

/// A start is answered exactly once, and no other order is answered at all.
pub proof fn law_only_start_is_answered<T>(
    session: Session<T>,
    trace: Seq<Occurrence<T>>,
    occurrence: Occurrence<T>,
)
    ensures
        run(session, trace.push(occurrence)).replies == if run(session, trace).worker is Some
            && is_start(occurrence) {
            run(session, trace).replies.push(reply_after_open(occurrence->outcome))
        } else {
            run(session, trace).replies
        },
{
    lemma_run_push(session, trace, occurrence);
}

/// Nothing reaches the sink before a start: a worker that was never told
/// to start holds no stream, whatever else it was told.
pub proof fn law_nothing_is_heard_before_a_start<T>(trace: Seq<Occurrence<T>>)
    requires
        forall|i: int| 0 <= i < trace.len() ==> !is_start(#[trigger] trace[i]),
    ensures
        run(Session::<T>::fresh(), trace).sink == Seq::<Seq<T>>::empty(),
        run(Session::<T>::fresh(), trace).replies == Seq::<ResponseView>::empty(),
        !run(Session::<T>::fresh(), trace).streaming(),
    decreases trace.len(),
{
    if trace.len() > 0 {
        law_nothing_is_heard_before_a_start(trace.drop_last());
    }
}

/// A start that succeeds leaves the worker capturing, whatever state it
/// was in and whatever the pause switch said: the next block reaches the sink.
pub proof fn law_successful_start_captures<T>(
    session: Session<T>,
    trace: Seq<Occurrence<T>>,
    device_id: Option<Seq<char>>,
    block: Seq<T>,
)
    requires
        run(session, trace).worker is Some,
    ensures
        ({
            let start = Occurrence::Order {
                command: CommandView::Start(device_id),
                outcome: Ok(()),
            };
            let started = run(session, trace.push(start));
            &&& started.worker == Some(WorkerView { streaming: true, paused: false })
            &&& started.replies == run(session, trace).replies.push(ResponseView::Started)
            &&& run(session, trace.push(start).push(Occurrence::Block { block })).sink
                == run(session, trace).sink.push(block)
        }),
{
    let start = Occurrence::Order { command: CommandView::Start(device_id), outcome: Ok(()) };
    lemma_run_push(session, trace, start);
    lemma_run_push(session, trace.push(start), Occurrence::Block { block });
}

/// A start that fails leaves no stream open, whatever state the worker was
/// in: a stream that ran before is gone too. The error is the answer.
pub proof fn law_failed_start_leaves_no_stream<T>(
    session: Session<T>,
    trace: Seq<Occurrence<T>>,
    device_id: Option<Seq<char>>,
    error: ErrorView,
)
    requires
        run(session, trace).worker is Some,
    ensures
        ({
            let start = Occurrence::Order {
                command: CommandView::Start(device_id),
                outcome: Err(error),
            };
            let failed = run(session, trace.push(start));
            &&& failed.worker is Some
            &&& !failed.streaming()
            &&& failed.replies == run(session, trace).replies.push(ResponseView::Error(error))
            &&& failed.sink == run(session, trace).sink
        }),
{
    let start = Occurrence::Order { command: CommandView::Start(device_id), outcome: Err(error) };
    lemma_run_push(session, trace, start);
}

/// A start lets go of whatever stream the worker holds before the new one
/// is opened: when the worker asks for a stream to be opened, it holds none.
/// So it never holds two, in whatever state the start finds it.
pub proof fn law_start_releases_before_opening(worker: WorkerView, device_id: Option<Seq<char>>)
    ensures
        next_step(worker, Some(CommandView::Start(device_id))) is Open,
        next_step(worker, Some(CommandView::Start(device_id))).handles_held() == 0,
        forall|input: Option<CommandView>| (#[trigger] next_step(worker, input)).handles_held() <= 1,
{
}

/// A stop is safe in every state, also after a start that was given up on:
/// it leaves the worker alive, without a stream, its pause switch untouched.
pub proof fn law_stop_always_releases(worker: WorkerView)
    ensures
        next_step(worker, Some(CommandView::Stop)) == StepView::Wait(
            WorkerView { streaming: false, paused: worker.paused },
        ),
        next_step(worker, Some(CommandView::Stop)).handles_held() == 0,
{
}

/// A start that names a device which is not there fails with
/// `DeviceNotFound`, naming the identifier, all the way to the caller of
/// `start`; and the worker is left without a stream.
pub proof fn law_unknown_device_fails_start(
    worker: WorkerView,
    ids: Seq<Option<Seq<char>>>,
    wanted: Seq<char>,
)
    requires
        no_match(ids, wanted),
    ensures
        forall|index: int| !is_first_match(ids, wanted, index),
        next_step(worker, Some(CommandView::Start(Some(wanted)))) matches StepView::Open(pending)
            && !state_after_open(pending, Err(ErrorView::DeviceNotFound(wanted))).streaming,
        start_outcome(Some(reply_after_open(Err(ErrorView::DeviceNotFound(wanted))))) == Err::<
            (),
            ErrorView,
        >(ErrorView::DeviceNotFound(wanted)),
{
}

/// Whatever goes wrong while a stream is opened reaches the caller of
/// `start` as it is, and a success reaches it as a success.
pub proof fn law_start_reports_opening(outcome: Result<(), ErrorView>)
    ensures
        start_outcome(Some(reply_after_open(outcome))) == outcome,
{
    if let Ok(unit) = outcome {
        assert(unit == ());
    }
}

/// A start whose answer does not come in time fails as a start that timed
/// out, whatever the worker does later.
pub proof fn law_unanswered_start_times_out()
    ensures
        start_outcome(None) == Err::<(), ErrorView>(
            ErrorView::StreamStartFailed("Timeout waiting for audio thread"@),
        ),
{
}

/// A shutdown, and likewise the closing of the command queue, ends the
/// worker in whatever state it is, and leaves no stream behind.
pub proof fn law_teardown_ends_worker<T>(
    session: Session<T>,
    trace: Seq<Occurrence<T>>,
    outcome: Result<(), ErrorView>,
)
    ensures
        run(
            session,
            trace.push(Occurrence::Order { command: CommandView::Shutdown, outcome }),
        ).worker is None,
        run(session, trace.push(Occurrence::QueueClosed)).worker is None,
        !run(
            session,
            trace.push(Occurrence::Order { command: CommandView::Shutdown, outcome }),
        ).streaming(),
        !run(session, trace.push(Occurrence::QueueClosed)).streaming(),
{
    lemma_run_push(session, trace, Occurrence::Order { command: CommandView::Shutdown, outcome });
    lemma_run_push(session, trace, Occurrence::QueueClosed);
}

/// A worker that has ended stays ended: nothing that happens afterwards
/// opens a stream, reaches the sink or is answered.
pub proof fn law_ended_worker_stays_silent<T>(session: Session<T>, trace: Seq<Occurrence<T>>)
    requires
        session.worker is None,
    ensures
        run(session, trace) == session,
    decreases trace.len(),
{
    if trace.len() > 0 {
        law_ended_worker_stays_silent(session, trace.drop_last());
    }
}

} // verus!
