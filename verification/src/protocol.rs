use crate::error::{outcome_view, ErrorView, MicCaptureError};
use vstd::prelude::*;
use vstd::string::*;

verus! {

/// How long `start` waits for the worker's answer, in seconds.
pub const START_TIMEOUT_SECS: u64 = 5;

/// An order to the worker thread. Orders are carried out one at a time, in
/// the order in which they were given.
#[derive(Debug, Clone, PartialEq, Eq)]
pub enum AudioCommand {
    /// Open a stream on the device with this identifier, or on the default
    /// input device, in place of any stream that is open.
    Start(Option<String>),
    /// Release the stream.
    Stop,
    /// Drop the sample blocks from now on.
    Pause,
    /// Forward the sample blocks again.
    Resume,
    /// Release the stream and end the thread.
    Shutdown,
}

/// An order as contracts speak of it.
pub enum CommandView {
    Start(Option<Seq<char>>),
    Stop,
    Pause,
    Resume,
    Shutdown,
}

impl View for AudioCommand {
    type V = CommandView;

    open spec fn view(&self) -> CommandView {
        match self {
            AudioCommand::Start(device_id) => CommandView::Start(device_id.deep_view()),
            AudioCommand::Stop => CommandView::Stop,
            AudioCommand::Pause => CommandView::Pause,
            AudioCommand::Resume => CommandView::Resume,
            AudioCommand::Shutdown => CommandView::Shutdown,
        }
    }
}

impl DeepView for AudioCommand {
    type V = CommandView;

    open spec fn deep_view(&self) -> CommandView {
        self@
    }
}

/// The worker's answer to a `Start`. No other order is answered.
#[derive(Debug, Clone, PartialEq, Eq)]
pub enum AudioResponse {
    Started,
    Error(MicCaptureError),
}

/// An answer as contracts speak of it.
pub enum ResponseView {
    Started,
    Error(ErrorView),
}

impl View for AudioResponse {
    type V = ResponseView;

    open spec fn view(&self) -> ResponseView {
        match self {
            AudioResponse::Started => ResponseView::Started,
            AudioResponse::Error(error) => ResponseView::Error(error@),
        }
    }
}

impl DeepView for AudioResponse {
    type V = ResponseView;

    open spec fn deep_view(&self) -> ResponseView {
        self@
    }
}

/// What `start` returns for the answer that arrived within the time allowed,
/// or for none.
pub open spec fn start_outcome(reply: Option<ResponseView>) -> Result<(), ErrorView> {
    match reply {
        Some(ResponseView::Started) => Ok(()),
        Some(ResponseView::Error(error)) => Err(error),
        None => Err(ErrorView::StreamStartFailed("Timeout waiting for audio thread"@)),
    }
}

/// The order that `start` sends for a device identifier.
pub fn start_command(device_id: Option<&str>) -> (command: AudioCommand)
    ensures
        command@ == CommandView::Start(
            match device_id {
                Some(id) => Some(id@),
                None => None,
            },
        ),
{
    match device_id {
        Some(id) => AudioCommand::Start(Some(id.to_owned())),
        None => AudioCommand::Start(None),
    }
}

/// The result of `start`, from the worker's answer. `None` stands for an
/// answer that did not come in time, or a worker that is gone: both are
/// reported as a start that failed by timeout.
pub fn start_result(reply: Option<AudioResponse>) -> (result: Result<(), MicCaptureError>)
    ensures
        outcome_view(result) == start_outcome(reply.deep_view()),
{
    match reply {
        Some(AudioResponse::Started) => Ok(()),
        Some(AudioResponse::Error(error)) => Err(error),
        None => Err(
            MicCaptureError::StreamStartFailed(String::from_str("Timeout waiting for audio thread")),
        ),
    }
}

} // verus!
