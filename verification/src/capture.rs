use crate::device::AudioDeviceInfo;
use crate::error::MicCaptureError;
use vstd::prelude::*;

verus! {

/// The control surface of a microphone capture, callable from any thread.
///
/// What an implementation does on each call is its own affair; the pieces it
/// is expected to be built from are the functions of this crate.
pub trait MicCapture: Send + Sync {
    /// Starts capturing from the device with the given identifier, or from
    /// the default input device where none is given.
    fn start(&self, device_id: Option<&str>) -> Result<(), MicCaptureError>;

    /// Stops forwarding sample blocks and keeps the stream for a later resume.
    fn pause(&self);

    /// Forwards sample blocks again.
    fn resume(&self);

    /// Ends the capture and releases the stream.
    fn stop(&self);

    /// The input devices that can be named in `start`.
    fn list_devices(&self) -> Vec<AudioDeviceInfo>;
}

} // verus!
