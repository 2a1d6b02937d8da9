use screencast::config::{CursorMode, PersistMode, SourceType};
use screencast::error::{HandshakeError, StepCause, StepName};
use screencast::object_path::is_valid_object_path;
use screencast::token::{render_request_token, render_session_token};

#[test]
fn cursor_mode_encodings() {
    assert_eq!(CursorMode::Hidden.to_u32(), 1);
    assert_eq!(CursorMode::Embedded.to_u32(), 2);
    assert_eq!(CursorMode::Metadata.to_u32(), 4);
    assert_eq!(CursorMode::default(), CursorMode::Hidden);
}

#[test]
fn persist_mode_encodings() {
    assert_eq!(PersistMode::DoNotPersist.to_u32(), 0);
    assert_eq!(PersistMode::AsApplication.to_u32(), 1);
    assert_eq!(PersistMode::UntilRevoked.to_u32(), 2);
    assert_eq!(PersistMode::default(), PersistMode::DoNotPersist);
}

#[test]
fn source_type_bit_encoding() {
    assert_eq!(SourceType::empty().bits(), 0);
    assert_eq!(SourceType::default().bits(), 0);
    assert_eq!(SourceType::new(true, false, false).bits(), 1);
    assert_eq!(SourceType::new(false, true, false).bits(), 2);
    assert_eq!(SourceType::new(false, false, true).bits(), 4);
    assert_eq!(SourceType::new(true, true, false).bits(), 3);
    assert_eq!(SourceType::new(true, false, true).bits(), 5);
    assert_eq!(SourceType::new(true, true, true).bits(), 7);
}

#[test]
fn token_rendering() {
    assert_eq!(render_request_token(0), "0");
    assert_eq!(render_request_token(3), "3");
    assert_eq!(render_request_token(10), "10");
    assert_eq!(render_request_token(12045), "12045");
    assert_eq!(render_session_token(0), "s0");
    assert_eq!(render_session_token(42), "s42");
    assert_ne!(render_session_token(7), render_request_token(7));
}

#[test]
fn object_path_validity() {
    assert!(is_valid_object_path("/"));
    assert!(is_valid_object_path("/org/freedesktop/portal/desktop"));
    assert!(is_valid_object_path("/a_B9"));
    assert!(!is_valid_object_path(""));
    assert!(!is_valid_object_path("relative/path"));
    assert!(!is_valid_object_path("/trailing/"));
    assert!(!is_valid_object_path("/double//separator"));
    assert!(!is_valid_object_path("/bad-char"));
}

#[test]
fn handshake_error_messages() {
    let e = HandshakeError {
        step: StepName::SelectSources,
        cause: StepCause::InvalidField("types".to_string()),
    };
    assert_eq!(e.message(), "select sources: unexpected value for types");
    let t = HandshakeError { step: StepName::OpenRemote, cause: StepCause::TransportClosed };
    assert_eq!(t.message(), "open remote: fail to receive response");
}
