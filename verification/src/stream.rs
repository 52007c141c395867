use crate::error::{ErrorView, MicCaptureError};
use vstd::prelude::*;
use vstd::string::*;

verus! {

/// The most channels ever asked of a device: capture is mono or stereo.
pub const MAX_CHANNELS: u16 = 2;

/// How the backend is to size the buffers of a stream.
#[derive(Debug, Clone, Copy, PartialEq, Eq)]
pub enum Buffering {
    /// Whatever the backend picks by itself.
    BackendDefault,
    /// A fixed number of frames per block.
    Fixed(u32),
}

/// The configuration that a stream is opened with.
#[derive(Debug, Clone, Copy, PartialEq, Eq)]
pub struct StreamSettings {
    pub channels: u16,
    pub sample_rate: u32,
    pub buffering: Buffering,
}

/// The settings to ask for, given the channel count and the sample rate of
/// the device's own default input configuration.
pub open spec fn negotiated(native_channels: u16, native_rate: u32) -> StreamSettings {
    StreamSettings {
        channels: if native_channels <= MAX_CHANNELS {
            native_channels
        } else {
            MAX_CHANNELS
        },
        sample_rate: native_rate,
        buffering: Buffering::BackendDefault,
    }
}

/// Settles the configuration of a stream from what the device offers by
/// default: at most two channels, the device's own sample rate, the backend's
/// own buffering. A device is never asked for more than it natively has.
pub fn negotiate(native_channels: u16, native_rate: u32) -> (settings: StreamSettings)
    ensures
        settings == negotiated(native_channels, native_rate),
        settings.channels <= native_channels,
        settings.channels <= MAX_CHANNELS,
{
    let channels = if native_channels <= MAX_CHANNELS {
        native_channels
    } else {
        MAX_CHANNELS
    };
    StreamSettings { channels, sample_rate: native_rate, buffering: Buffering::BackendDefault }
}

/// The step at which the backend let an opening down, with its own words
/// for the cause where it gave any.
#[derive(Debug, Clone, PartialEq, Eq)]
pub enum OpenFailure {
    /// The input devices could not be enumerated.
    Enumeration(String),
    /// No identifier was given and the backend has no default input device.
    NoDefaultDevice,
    /// The device did not tell its default input configuration.
    Configuration(String),
    /// The backend refused to build the stream.
    Construction(String),
    /// The stream was built and would not start.
    Playback(String),
}

/// A failed step as contracts speak of it.
pub enum OpenFailureView {
    Enumeration(Seq<char>),
    NoDefaultDevice,
    Configuration(Seq<char>),
    Construction(Seq<char>),
    Playback(Seq<char>),
}

impl View for OpenFailure {
    type V = OpenFailureView;

    open spec fn view(&self) -> OpenFailureView {
        match self {
            OpenFailure::Enumeration(cause) => OpenFailureView::Enumeration(cause@),
            OpenFailure::NoDefaultDevice => OpenFailureView::NoDefaultDevice,
            OpenFailure::Configuration(cause) => OpenFailureView::Configuration(cause@),
            OpenFailure::Construction(cause) => OpenFailureView::Construction(cause@),
            OpenFailure::Playback(cause) => OpenFailureView::Playback(cause@),
        }
    }
}

/// The capture error that each failed step is reported as.
pub open spec fn reported(failure: OpenFailureView) -> ErrorView {
    match failure {
        OpenFailureView::Enumeration(cause) => ErrorView::DeviceNotFound(cause),
        OpenFailureView::NoDefaultDevice => ErrorView::DeviceNotFound("No default device"@),
        OpenFailureView::Configuration(cause) => ErrorView::StreamCreationFailed(cause),
        OpenFailureView::Construction(cause) => ErrorView::StreamCreationFailed(cause),
        OpenFailureView::Playback(cause) => ErrorView::StreamStartFailed(cause),
    }
}

/// Wraps a failure of the backend into the capture error that the caller of
/// `start` gets to see; the backend's words for the cause are kept as they are.
pub fn open_error(failure: OpenFailure) -> (error: MicCaptureError)
    ensures
        error@ == reported(failure@),
{
    match failure {
        OpenFailure::Enumeration(cause) => MicCaptureError::DeviceNotFound(cause),
        OpenFailure::NoDefaultDevice => MicCaptureError::DeviceNotFound(
            String::from_str("No default device"),
        ),
        OpenFailure::Configuration(cause) => MicCaptureError::StreamCreationFailed(cause),
        OpenFailure::Construction(cause) => MicCaptureError::StreamCreationFailed(cause),
        OpenFailure::Playback(cause) => MicCaptureError::StreamStartFailed(cause),
    }
}

} // verus!
