//! Verified core of a low-latency microphone capture controller.
//!
//! A dedicated worker thread owns the platform's input stream and takes its
//! orders from a command queue. This crate holds what that thread and its
//! controller decide: the command protocol, the worker's state machine, the
//! choice of device and stream settings, the pause gate that every sample
//! block passes, and the laws that tie them together. Threads, queues and
//! the audio backend itself are the embedding program's business.

pub mod capture;
pub mod device;
pub mod error;
pub mod gate;
pub mod protocol;
pub mod session;
pub mod stream;
pub mod worker;

pub use capture::MicCapture;
pub use device::{list_devices, select_device, AudioDeviceInfo, DeviceProbe};
pub use error::MicCaptureError;
pub use gate::{forward_block, PauseFlag, PauseGate};
pub use protocol::{start_command, start_result, AudioCommand, AudioResponse, START_TIMEOUT_SECS};
pub use stream::{negotiate, open_error, Buffering, OpenFailure, StreamSettings, MAX_CHANNELS};
pub use worker::{PendingStart, Step, Worker};
