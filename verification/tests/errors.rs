use pulsectl::errors::{PulseCtlError, PulseCtlErrorType};

#[test]
fn new_keeps_kind_and_message() {
    let e = PulseCtlError::new(PulseCtlErrorType::ConnectError, "could not connect");
    assert_eq!(e.kind(), PulseCtlErrorType::ConnectError);
    assert_eq!(e.message(), "could not connect");
}

#[test]
fn describe_shows_kind_then_message() {
    let e = PulseCtlError::new(PulseCtlErrorType::ConnectError, "a");
    assert_eq!(e.describe(), "[ConnectError]: a");
    let e = PulseCtlError::new(PulseCtlErrorType::OperationError, "b c");
    assert_eq!(e.describe(), "[OperationError]: b c");
    let e = PulseCtlError::new(PulseCtlErrorType::NotFound, "");
    assert_eq!(e.describe(), "[NotFound]: ");
    let e = PulseCtlError::new(PulseCtlErrorType::PulseAudioError, "d");
    assert_eq!(e.describe(), "[PulseAudioError]: d");
}

#[test]
fn server_text_is_wrapped() {
    let e = PulseCtlError::from_server_text(Some("No such entity"));
    assert_eq!(e.kind(), PulseCtlErrorType::PulseAudioError);
    assert_eq!(e.message(), "PulseAudio returned error code No such entity");
    assert_eq!(e.describe(), "[PulseAudioError]: PulseAudio returned error code No such entity");
}

#[test]
fn a_code_without_text_leaves_the_place_empty() {
    let e = PulseCtlError::from_server_text(None);
    assert_eq!(e.kind(), PulseCtlErrorType::PulseAudioError);
    assert_eq!(e.message(), "PulseAudio returned error code ");
}
