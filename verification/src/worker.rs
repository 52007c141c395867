use crate::error::{outcome_view, ErrorView, MicCaptureError};
use crate::gate::{PauseFlag, PauseGate};
use crate::protocol::{AudioCommand, AudioResponse, CommandView, ResponseView};
use std::marker::PhantomData;
use vstd::prelude::*;
use vstd::string::*;

verus! {

/// The state of the worker thread between two orders.
///
/// The worker is the only owner of the stream handle, whose type `S` is the
/// backend's. It holds at most one, and never lends it out: the handle lives
/// and dies on the thread that runs the worker. Three states follow from the
/// handle and the pause switch: idle (no handle), capturing (a handle,
/// running), paused (a handle, blocks dropped).
pub struct Worker<S> {
    stream: Option<S>,
    flag: PauseFlag,
}

/// A worker as contracts speak of it.
pub struct WorkerView {
    /// Whether the worker holds a stream handle.
    pub streaming: bool,
    /// What the pause switch was last set to.
    pub paused: bool,
}

impl WorkerView {
    /// The state in which a worker starts: no stream, not paused.
    pub open spec fn idle() -> WorkerView {
        WorkerView { streaming: false, paused: false }
    }

    /// Whether blocks reach the sink in this state.
    pub open spec fn capturing(self) -> bool {
        self.streaming && !self.paused
    }
}

/// A worker that has let go of its stream and is about to open a new one.
///
/// It holds no stream handle: whatever the worker held before is released by
/// the time this value exists. The embedding thread opens the stream for
/// `device_id`, wired to `pause_gate`, and reports how that went to
/// `complete`.
pub struct PendingStart<S> {
    device_id: Option<String>,
    flag: PauseFlag,
    stream: PhantomData<S>,
}

/// A pending start as contracts speak of it.
pub struct PendingView {
    /// The device to open, or `None` for the default input device.
    pub device_id: Option<Seq<char>>,
    /// What the pause switch was last set to.
    pub paused: bool,
}

/// What the worker thread does after an order.
pub enum Step<S> {
    /// Wait for the next order.
    Wait(Worker<S>),
    /// Open a stream and report the outcome, then wait for the next order.
    Open(PendingStart<S>),
    /// End the thread. No stream is left open.
    Exit,
}

/// A step as contracts speak of it.
pub enum StepView {
    Wait(WorkerView),
    Open(PendingView),
    Exit,
}

impl StepView {
    /// The number of stream handles in the worker's hands at this step.
    pub open spec fn handles_held(self) -> nat {
        match self {
            StepView::Wait(worker) => if worker.streaming {
                1
            } else {
                0
            },
            StepView::Open(_) => 0,
            StepView::Exit => 0,
        }
    }
}

/// The step that follows an order in a given state. `None` stands for a
/// command queue that was closed: it ends the worker as `Shutdown` does.
pub open spec fn next_step(worker: WorkerView, input: Option<CommandView>) -> StepView {
    match input {
        Some(CommandView::Start(device_id)) => StepView::Open(
            PendingView { device_id, paused: worker.paused },
        ),
        Some(CommandView::Stop) => StepView::Wait(
            WorkerView { streaming: false, paused: worker.paused },
        ),
        Some(CommandView::Pause) => StepView::Wait(
            WorkerView { streaming: worker.streaming, paused: true },
        ),
        Some(CommandView::Resume) => StepView::Wait(
            WorkerView { streaming: worker.streaming, paused: false },
        ),
        Some(CommandView::Shutdown) => StepView::Exit,
        None => StepView::Exit,
    }
}

/// The state of the worker after an attempt to open a stream. A stream that
/// opened is held and runs unpaused; after a failure no stream is held and
/// the pause switch is as it was.
pub open spec fn state_after_open(pending: PendingView, outcome: Result<(), ErrorView>)
    -> WorkerView {
    match outcome {
        Ok(_) => WorkerView { streaming: true, paused: false },
        Err(_) => WorkerView { streaming: false, paused: pending.paused },
    }
}

/// The answer sent to the caller of `start` after an attempt to open a stream.
pub open spec fn reply_after_open(outcome: Result<(), ErrorView>) -> ResponseView {
    match outcome {
        Ok(_) => ResponseView::Started,
        Err(error) => ResponseView::Error(error),
    }
}

impl<S> View for Worker<S> {
    type V = WorkerView;

    closed spec fn view(&self) -> WorkerView {
        WorkerView { streaming: self.stream is Some, paused: self.flag.paused() }
    }
}

impl<S> View for PendingStart<S> {
    type V = PendingView;

    closed spec fn view(&self) -> PendingView {
        PendingView { device_id: self.device_id.deep_view(), paused: self.flag.paused() }
    }
}

impl<S> View for Step<S> {
    type V = StepView;

    open spec fn view(&self) -> StepView {
        match self {
            Step::Wait(worker) => StepView::Wait(worker@),
            Step::Open(pending) => StepView::Open(pending@),
            Step::Exit => StepView::Exit,
        }
    }
}

/// Releases a stream handle, if there is one. The handle is owned by this
/// function and ends with it, which closes the stream.
fn release<S>(_stream: Option<S>) {
}

impl<S> Worker<S> {
    /// The reading side of the pause switch that the worker sets.
    pub closed spec fn switch(&self) -> PauseGate {
        self.flag.reader()
    }

    /// A worker as its thread starts: idle, with a pause switch of its own.
    pub fn new() -> (worker: Worker<S>)
        ensures
            worker@ == WorkerView::idle(),
    {
        Worker { stream: None, flag: PauseFlag::new() }
    }

    /// Whether the worker holds a stream.
    pub fn is_streaming(&self) -> (streaming: bool)
        ensures
            streaming == self@.streaming,
    {
        self.stream.is_some()
    }

    /// What the pause switch was last set to.
    pub fn is_paused(&self) -> (paused: bool)
        ensures
            paused == self@.paused,
    {
        self.flag.is_paused()
    }

    /// Carries out one order, or the end of the command queue where
    /// `command` is `None`, and tells the thread what to do next.
    ///
    /// Any stream that the order does away with is released before this
    /// function returns: before a new one is opened, and before the thread
    /// ends.
    pub fn handle(self, command: Option<AudioCommand>) -> (step: Step<S>)
        ensures
            step@ == next_step(self@, command.deep_view()),
            step@.handles_held() <= 1,
            !(step is Wait) ==> step@.handles_held() == 0,
            step matches Step::Wait(next) ==> next.switch() == self.switch(),
            step matches Step::Open(pending) ==> pending.switch() == self.switch(),
    {
        let Worker { stream, mut flag } = self;
        match command {
            Some(AudioCommand::Start(device_id)) => {
                release(stream);
                Step::Open(PendingStart { device_id, flag, stream: PhantomData })
            },
            Some(AudioCommand::Stop) => {
                release(stream);
                Step::Wait(Worker { stream: None, flag })
            },
            Some(AudioCommand::Pause) => {
                flag.set(true);
                Step::Wait(Worker { stream, flag })
            },
            Some(AudioCommand::Resume) => {
                flag.set(false);
                Step::Wait(Worker { stream, flag })
            },
            Some(AudioCommand::Shutdown) => {
                release(stream);
                Step::Exit
            },
            None => {
                release(stream);
                Step::Exit
            },
        }
    }
}

impl<S> PendingStart<S> {
    /// The reading side of the pause switch of the worker that this start
    /// belongs to.
    pub closed spec fn switch(&self) -> PauseGate {
        self.flag.reader()
    }

    /// The device to open, or `None` for the default input device.
    pub fn device_id(&self) -> (device_id: Option<&str>)
        ensures
            match device_id {
                Some(id) => self@.device_id == Some(id@),
                None => self@.device_id is None,
            },
    {
        match &self.device_id {
            Some(id) => Some(id.as_str()),
            None => None,
        }
    }

    /// A handle on the worker's pause switch, for the callback of the stream
    /// that is about to be opened.
    pub fn pause_gate(&self) -> (gate: PauseGate)
        ensures
            gate == self.switch(),
    {
        self.flag.gate()
    }

    /// Takes the outcome of opening the stream: the worker to go on with,
    /// and the answer to send to the caller of `start`.
    ///
    /// A stream that opened is held from now on and runs unpaused, whatever
    /// the pause switch said before. After a failure the worker holds no
    /// stream, and the pause switch is left as it was.
    pub fn complete(self, outcome: Result<S, MicCaptureError>) -> (next: (
        Worker<S>,
        AudioResponse,
    ))
        ensures
            next.0@ == state_after_open(self@, outcome_view(outcome)),
            next.1@ == reply_after_open(outcome_view(outcome)),
            next.0.switch() == self.switch(),
    {
        let PendingStart { device_id: _, mut flag, stream: _ } = self;
        match outcome {
            Ok(stream) => {
                flag.set(false);
                (Worker { stream: Some(stream), flag }, AudioResponse::Started)
            },
            Err(error) => (Worker { stream: None, flag }, AudioResponse::Error(error)),
        }
    }
}

} // verus!
