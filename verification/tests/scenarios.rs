use mic_capture::{
    list_devices, negotiate, open_error, select_device, start_command, start_result,
    AudioCommand, AudioDeviceInfo, AudioResponse, DeviceProbe, MicCaptureError, OpenFailure,
    PauseGate, Step, StreamSettings, Worker,
};
use std::cell::{Cell, RefCell};
use std::collections::VecDeque;
use std::rc::Rc;

/// A stream of the stand-in backend: it feeds the blocks it is given through
/// the pause gate into the sink, and counts as open until it is dropped.
struct FakeStream {
    gate: PauseGate,
    sink: Rc<RefCell<Vec<Vec<f32>>>>,
    open: Rc<Cell<usize>>,
    settings: StreamSettings,
}

impl FakeStream {
    fn deliver(&self, block: &[f32]) {
        if let Some(copy) = self.gate.filter(block) {
            self.sink.borrow_mut().push(copy);
        }
    }
}

impl Drop for FakeStream {
    fn drop(&mut self) {
        self.open.set(self.open.get() - 1);
    }
}

/// A stand-in for the audio backend, with a fixed set of devices.
struct FakeBackend {
    probes: Vec<DeviceProbe>,
    has_default: bool,
    native_channels: u16,
    native_rate: u32,
    sink: Rc<RefCell<Vec<Vec<f32>>>>,
    open: Rc<Cell<usize>>,
    most_open: Cell<usize>,
}

impl FakeBackend {
    fn new(has_default: bool) -> FakeBackend {
        FakeBackend {
            probes: vec![
                DeviceProbe { id: Some("builtin".to_string()), name: Some("Built-in".to_string()) },
                DeviceProbe { id: None, name: Some("Unplugged".to_string()) },
                DeviceProbe { id: Some("usb-1".to_string()), name: Some("USB".to_string()) },
            ],
            has_default,
            native_channels: 6,
            native_rate: 48_000,
            sink: Rc::new(RefCell::new(Vec::new())),
            open: Rc::new(Cell::new(0)),
            most_open: Cell::new(0),
        }
    }

    fn open_stream(&self, device_id: Option<&str>, gate: PauseGate) -> Result<FakeStream, MicCaptureError> {
        match device_id {
            Some(id) => {
                let ids = self.probes.iter().map(|probe| probe.id.clone()).collect();
                select_device(&ids, id)?;
            }
            None => {
                if !self.has_default {
                    return Err(open_error(OpenFailure::NoDefaultDevice));
                }
            }
        }
        let settings = negotiate(self.native_channels, self.native_rate);
        self.open.set(self.open.get() + 1);
        if self.open.get() > self.most_open.get() {
            self.most_open.set(self.open.get());
        }
        Ok(FakeStream { gate, sink: Rc::clone(&self.sink), open: Rc::clone(&self.open), settings })
    }

    fn received(&self) -> Vec<Vec<f32>> {
        self.sink.borrow().clone()
    }
}

/// What the worker holds: the handle proper, so that dropping it closes the stream.
struct Held {
    stream: Rc<FakeStream>,
}

fn run_worker(
    backend: &FakeBackend,
    mut worker: Worker<Held>,
    commands: &mut VecDeque<AudioCommand>,
    responses: &mut VecDeque<AudioResponse>,
    current: &mut Option<std::rc::Weak<FakeStream>>,
) -> Option<Worker<Held>> {
    while let Some(command) = commands.pop_front() {
        match worker.handle(Some(command)) {
            Step::Wait(next) => worker = next,
            Step::Open(pending) => {
                let outcome = backend
                    .open_stream(pending.device_id(), pending.pause_gate())
                    .map(|stream| Held { stream: Rc::new(stream) });
                if let Ok(held) = &outcome {
                    *current = Some(Rc::downgrade(&held.stream));
                }
                let (next, reply) = pending.complete(outcome);
                responses.push_back(reply);
                worker = next;
            }
            Step::Exit => return None,
        }
    }
    Some(worker)
}

/// The controller's side of the capture, with the worker run to quiescence
/// after every call.
struct Capture {
    backend: FakeBackend,
    worker: Option<Worker<Held>>,
    commands: VecDeque<AudioCommand>,
    responses: VecDeque<AudioResponse>,
    current: Option<std::rc::Weak<FakeStream>>,
}

impl Capture {
    fn new(has_default: bool) -> Capture {
        Capture {
            backend: FakeBackend::new(has_default),
            worker: Some(Worker::new()),
            commands: VecDeque::new(),
            responses: VecDeque::new(),
            current: None,
        }
    }

    fn turn(&mut self) {
        if let Some(worker) = self.worker.take() {
            self.worker = run_worker(
                &self.backend,
                worker,
                &mut self.commands,
                &mut self.responses,
                &mut self.current,
            );
        }
    }

    fn start(&mut self, device_id: Option<&str>) -> Result<(), MicCaptureError> {
        self.commands.push_back(start_command(device_id));
        self.turn();
        start_result(self.responses.pop_front())
    }

    fn send(&mut self, command: AudioCommand) {
        self.commands.push_back(command);
        self.turn();
    }

    fn list(&self) -> Vec<AudioDeviceInfo> {
        list_devices(Some(self.backend.probes.clone()))
    }

    /// The backend delivers a block, if a stream is open to deliver it to.
    fn block(&self, samples: &[f32]) {
        if let Some(stream) = self.current.as_ref().and_then(|weak| weak.upgrade()) {
            stream.deliver(samples);
        }
    }

    fn open_streams(&self) -> usize {
        self.backend.open.get()
    }
}

#[test]
fn start_on_the_default_device_delivers_blocks() {
    let mut capture = Capture::new(true);
    assert_eq!(capture.start(None), Ok(()));
    capture.block(&[0.5, -0.5, 0.25]);
    let received = capture.backend.received();
    assert!(!received.is_empty());
    assert!(!received[0].is_empty());
    assert_eq!(received, vec![vec![0.5, -0.5, 0.25]]);
}

#[test]
fn start_with_a_nonexistent_identifier_reports_device_not_found() {
    let mut capture = Capture::new(true);
    let result = capture.start(Some("nonexistent-id"));
    assert!(matches!(result, Err(MicCaptureError::DeviceNotFound(_))));
    assert_eq!(result, Err(MicCaptureError::DeviceNotFound("nonexistent-id".to_string())));
    assert_eq!(capture.open_streams(), 0);
}

#[test]
fn start_without_a_default_device_reports_device_not_found() {
    let mut capture = Capture::new(false);
    assert_eq!(
        capture.start(None),
        Err(MicCaptureError::DeviceNotFound("No default device".to_string()))
    );
    assert_eq!(capture.open_streams(), 0);
}

#[test]
fn failed_start_closes_the_stream_that_was_running() {
    let mut capture = Capture::new(true);
    assert_eq!(capture.start(Some("usb-1")), Ok(()));
    assert_eq!(capture.open_streams(), 1);
    assert!(capture.start(Some("nonexistent-id")).is_err());
    assert_eq!(capture.open_streams(), 0);
    capture.block(&[0.1]);
    assert!(capture.backend.received().is_empty());
}

#[test]
fn stream_is_opened_with_at_most_two_channels_at_the_native_rate() {
    let mut capture = Capture::new(true);
    assert_eq!(capture.start(Some("builtin")), Ok(()));
    let stream = capture.current.as_ref().and_then(|weak| weak.upgrade()).unwrap();
    assert_eq!(stream.settings.channels, 2);
    assert_eq!(stream.settings.sample_rate, 48_000);
}

#[test]
fn paused_blocks_never_reach_the_sink() {
    let mut capture = Capture::new(true);
    assert_eq!(capture.start(None), Ok(()));
    capture.block(&[1.0]);
    capture.send(AudioCommand::Pause);
    capture.block(&[2.0]);
    capture.block(&[3.0]);
    capture.send(AudioCommand::Pause);
    capture.block(&[4.0]);
    assert_eq!(capture.backend.received(), vec![vec![1.0]]);
}

#[test]
fn resume_restores_delivery_without_replay() {
    let mut capture = Capture::new(true);
    assert_eq!(capture.start(None), Ok(()));
    capture.block(&[1.0]);
    capture.send(AudioCommand::Pause);
    capture.block(&[2.0]);
    capture.send(AudioCommand::Resume);
    capture.block(&[3.0]);
    capture.send(AudioCommand::Pause);
    capture.send(AudioCommand::Resume);
    capture.block(&[4.0]);
    capture.send(AudioCommand::Resume);
    capture.block(&[5.0]);
    assert_eq!(
        capture.backend.received(),
        vec![vec![1.0], vec![3.0], vec![4.0], vec![5.0]]
    );
}

#[test]
fn restart_never_has_two_streams_open() {
    let mut capture = Capture::new(true);
    assert_eq!(capture.start(None), Ok(()));
    assert_eq!(capture.start(Some("usb-1")), Ok(()));
    assert_eq!(capture.start(Some("builtin")), Ok(()));
    assert_eq!(capture.start(None), Ok(()));
    assert_eq!(capture.open_streams(), 1);
    assert_eq!(capture.backend.most_open.get(), 1);
}

#[test]
fn restart_after_a_pause_runs_unpaused() {
    let mut capture = Capture::new(true);
    assert_eq!(capture.start(None), Ok(()));
    capture.send(AudioCommand::Pause);
    capture.block(&[1.0]);
    assert_eq!(capture.start(Some("usb-1")), Ok(()));
    capture.block(&[2.0]);
    assert_eq!(capture.backend.received(), vec![vec![2.0]]);
}

#[test]
fn stop_then_list_devices_reflects_the_backend() {
    let mut capture = Capture::new(true);
    assert_eq!(capture.start(None), Ok(()));
    capture.send(AudioCommand::Stop);
    let expected = vec![
        AudioDeviceInfo { id: "builtin".to_string(), name: "Built-in".to_string() },
        AudioDeviceInfo { id: "usb-1".to_string(), name: "USB".to_string() },
    ];
    assert_eq!(capture.list(), expected);
    assert_eq!(capture.open_streams(), 0);
}

#[test]
fn list_devices_is_the_same_in_every_worker_state() {
    let mut capture = Capture::new(true);
    let idle = capture.list();
    assert_eq!(capture.start(None), Ok(()));
    let running = capture.list();
    capture.send(AudioCommand::Pause);
    let paused = capture.list();
    capture.send(AudioCommand::Shutdown);
    let ended = capture.list();
    assert_eq!(idle, running);
    assert_eq!(idle, paused);
    assert_eq!(idle, ended);
    assert_eq!(idle.len(), 2);
}

#[test]
fn unanswered_start_times_out_and_stop_is_safe_afterwards() {
    let mut capture = Capture::new(true);
    assert_eq!(
        start_result(capture.responses.pop_front()),
        Err(MicCaptureError::StreamStartFailed("Timeout waiting for audio thread".to_string()))
    );
    capture.send(AudioCommand::Stop);
    assert!(capture.worker.is_some());
    assert_eq!(capture.open_streams(), 0);
    assert_eq!(capture.start(None), Ok(()));
}

#[test]
fn late_answer_is_left_for_the_next_reader() {
    let mut capture = Capture::new(true);
    capture.send(start_command(None));
    assert_eq!(capture.open_streams(), 1);
    capture.send(AudioCommand::Stop);
    assert_eq!(capture.open_streams(), 0);
    assert_eq!(capture.responses.len(), 1);
}

#[test]
fn teardown_ends_the_worker_and_closes_the_stream() {
    let mut capture = Capture::new(true);
    assert_eq!(capture.start(None), Ok(()));
    capture.send(AudioCommand::Stop);
    capture.send(AudioCommand::Shutdown);
    assert!(capture.worker.is_none());
    assert_eq!(capture.open_streams(), 0);
}

#[test]
fn shutdown_while_capturing_closes_the_stream() {
    let mut capture = Capture::new(true);
    assert_eq!(capture.start(None), Ok(()));
    capture.send(AudioCommand::Shutdown);
    assert!(capture.worker.is_none());
    assert_eq!(capture.open_streams(), 0);
    capture.block(&[1.0]);
    assert!(capture.backend.received().is_empty());
}

#[test]
fn orders_after_shutdown_are_never_carried_out() {
    let mut capture = Capture::new(true);
    capture.send(AudioCommand::Shutdown);
    capture.send(start_command(None));
    assert_eq!(capture.open_streams(), 0);
    assert_eq!(
        start_result(capture.responses.pop_front()),
        Err(MicCaptureError::StreamStartFailed("Timeout waiting for audio thread".to_string()))
    );
}

#[test]
fn only_starts_are_answered() {
    let mut capture = Capture::new(true);
    capture.send(AudioCommand::Pause);
    capture.send(AudioCommand::Resume);
    capture.send(AudioCommand::Stop);
    assert!(capture.responses.is_empty());
    capture.send(start_command(None));
    capture.send(start_command(Some("nonexistent-id")));
    assert_eq!(capture.responses.len(), 2);
    assert_eq!(capture.responses[0], AudioResponse::Started);
    assert_eq!(
        capture.responses[1],
        AudioResponse::Error(MicCaptureError::DeviceNotFound("nonexistent-id".to_string()))
    );
}
