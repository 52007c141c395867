use vstd::prelude::*;
use vstd::string::*;

verus! {

/// Why a capture could not be started. Every variant carries its cause as text.
#[derive(Debug, Clone, PartialEq, Eq)]
pub enum MicCaptureError {
    /// No input device answers to the request.
    DeviceNotFound(String),
    /// The backend could not set up a stream on the chosen device.
    StreamCreationFailed(String),
    /// The stream was set up but did not start, or nobody confirmed that it did.
    StreamStartFailed(String),
}

/// A capture error as contracts speak of it.
pub enum ErrorView {
    DeviceNotFound(Seq<char>),
    StreamCreationFailed(Seq<char>),
    StreamStartFailed(Seq<char>),
}

impl ErrorView {
    /// The cause that the error carries.
    pub open spec fn detail(self) -> Seq<char> {
        match self {
            ErrorView::DeviceNotFound(detail) => detail,
            ErrorView::StreamCreationFailed(detail) => detail,
            ErrorView::StreamStartFailed(detail) => detail,
        }
    }

    /// The words that introduce the cause in a message to the user.
    pub open spec fn headline(self) -> Seq<char> {
        match self {
            ErrorView::DeviceNotFound(_) => "Mic device not found: "@,
            ErrorView::StreamCreationFailed(_) => "Failed to create stream: "@,
            ErrorView::StreamStartFailed(_) => "Failed to start stream: "@,
        }
    }

    /// The message shown to the user: the headline, then the cause.
    pub open spec fn message(self) -> Seq<char> {
        self.headline() + self.detail()
    }
}

impl View for MicCaptureError {
    type V = ErrorView;

    open spec fn view(&self) -> ErrorView {
        match self {
            MicCaptureError::DeviceNotFound(detail) => ErrorView::DeviceNotFound(detail@),
            MicCaptureError::StreamCreationFailed(detail) => ErrorView::StreamCreationFailed(
                detail@,
            ),
            MicCaptureError::StreamStartFailed(detail) => ErrorView::StreamStartFailed(detail@),
        }
    }
}

/// Whether an operation succeeded, and with which error it failed: the
/// result as contracts speak of it, whatever a success carries.
pub open spec fn outcome_view<T>(outcome: Result<T, MicCaptureError>) -> Result<(), ErrorView> {
    match outcome {
        Ok(_) => Ok(()),
        Err(error) => Err(error@),
    }
}

impl MicCaptureError {
    /// The cause that the error carries.
    pub fn detail(&self) -> (detail: &str)
        ensures
            detail@ == self@.detail(),
    {
        match self {
            MicCaptureError::DeviceNotFound(detail) => detail.as_str(),
            MicCaptureError::StreamCreationFailed(detail) => detail.as_str(),
            MicCaptureError::StreamStartFailed(detail) => detail.as_str(),
        }
    }

    /// The message shown to the user.
    pub fn message(&self) -> (text: String)
        ensures
            text@ == self@.message(),
    {
        let headline = match self {
            MicCaptureError::DeviceNotFound(_) => "Mic device not found: ",
            MicCaptureError::StreamCreationFailed(_) => "Failed to create stream: ",
            MicCaptureError::StreamStartFailed(_) => "Failed to start stream: ",
        };
        String::from_str(headline).concat(self.detail())
    }
}

} // verus!
