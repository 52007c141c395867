use mic_capture::{open_error, MicCaptureError, OpenFailure};

#[test]
fn message_of_device_not_found() {
    let error = MicCaptureError::DeviceNotFound("usb-1".to_string());
    assert_eq!(error.message(), "Mic device not found: usb-1");
}

#[test]
fn message_of_stream_creation_failed() {
    let error = MicCaptureError::StreamCreationFailed("format not supported".to_string());
    assert_eq!(error.message(), "Failed to create stream: format not supported");
}

#[test]
fn message_of_stream_start_failed() {
    let error = MicCaptureError::StreamStartFailed("device busy".to_string());
    assert_eq!(error.message(), "Failed to start stream: device busy");
}

#[test]
fn message_with_empty_detail_is_the_headline() {
    assert_eq!(MicCaptureError::DeviceNotFound(String::new()).message(), "Mic device not found: ");
}

#[test]
fn detail_is_the_carried_text() {
    assert_eq!(MicCaptureError::DeviceNotFound("a".to_string()).detail(), "a");
    assert_eq!(MicCaptureError::StreamCreationFailed("b".to_string()).detail(), "b");
    assert_eq!(MicCaptureError::StreamStartFailed("c".to_string()).detail(), "c");
}

#[test]
fn failed_enumeration_is_a_device_not_found() {
    assert_eq!(
        open_error(OpenFailure::Enumeration("host unavailable".to_string())),
        MicCaptureError::DeviceNotFound("host unavailable".to_string())
    );
}

#[test]
fn missing_default_device_is_a_device_not_found() {
    assert_eq!(
        open_error(OpenFailure::NoDefaultDevice),
        MicCaptureError::DeviceNotFound("No default device".to_string())
    );
}

#[test]
fn unknown_configuration_is_a_stream_creation_failure() {
    assert_eq!(
        open_error(OpenFailure::Configuration("no default config".to_string())),
        MicCaptureError::StreamCreationFailed("no default config".to_string())
    );
}

#[test]
fn refused_construction_is_a_stream_creation_failure() {
    assert_eq!(
        open_error(OpenFailure::Construction("invalid argument".to_string())),
        MicCaptureError::StreamCreationFailed("invalid argument".to_string())
    );
}

#[test]
fn refused_playback_is_a_stream_start_failure() {
    assert_eq!(
        open_error(OpenFailure::Playback("device busy".to_string())),
        MicCaptureError::StreamStartFailed("device busy".to_string())
    );
}
