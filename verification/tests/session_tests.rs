use screencast::config::{CursorMode, PersistMode, SourceType};
use screencast::correlate::{resolve_completion, CompletionEvent, PendingRequest};
use screencast::decode::SelectedSource;
use screencast::error::{StepCause, StepName};
use screencast::session::{NegotiationSession, Phase};
use screencast::value::{DictEntry, StructValue};

fn entry(key: &str, value: StructValue) -> DictEntry {
    DictEntry { key: key.to_string(), value }
}

fn success_event(results: Vec<DictEntry>) -> Option<CompletionEvent> {
    Some(CompletionEvent { status: 0, results })
}

fn fresh_session() -> NegotiationSession {
    let mut s = NegotiationSession::new(
        CursorMode::Embedded,
        SourceType::new(true, true, false),
        PersistMode::AsApplication,
        true,
    );
    s.connection_established();
    s
}

#[test]
fn full_handshake_succeeds() {
    let mut s = fresh_session();

    let create = s.create_session_request();
    assert_eq!(create.session_handle_token, "s0");
    assert_eq!(create.handle_token, "0");
    assert_ne!(create.session_handle_token, create.handle_token);

    let created = s.complete_create_session(success_event(vec![entry(
        "session_handle",
        StructValue::Str("/org/desktop/session/u1".to_string()),
    )]));
    assert!(created.is_ok());
    assert_eq!(s.phase, Phase::SourcesToSelect);

    let select = s.select_sources_request();
    assert_eq!(select.session_handle, "/org/desktop/session/u1");
    assert_eq!(select.handle_token, "1");
    assert_eq!(select.multiple, true);
    assert_eq!(select.types, 3);
    assert_eq!(select.persist_mode, 1);
    assert_eq!(select.cursor_mode, 2);

    let start = s.start_request();
    assert_eq!(start.session_handle, "/org/desktop/session/u1");
    assert_eq!(start.parent_window, "");
    assert_eq!(start.handle_token, "2");

    let streams = StructValue::Array(vec![StructValue::Structure(vec![
        StructValue::U32(9),
        StructValue::Dict(vec![
            entry("source_type", StructValue::U32(1)),
            entry(
                "size",
                StructValue::Structure(vec![StructValue::I32(2560), StructValue::I32(1440)]),
            ),
        ]),
    ])]);
    let started = s.complete_start(success_event(vec![entry("streams", streams)]));
    assert!(started.is_ok());
    assert_eq!(
        s.selected_sources(),
        &vec![SelectedSource { id: 9, source_kind: 1, width: Some(2560), height: Some(1440) }]
    );

    let open = s.open_remote_request();
    assert_eq!(open.session_handle, "/org/desktop/session/u1");
    assert_eq!(open.handle_token, "3");

    assert_eq!(s.finish_open_remote(11).map_err(|e| e.step), Ok(11));
    assert_eq!(s.phase, Phase::Done);
    assert_eq!(s.counter, 4);
}

#[test]
fn four_request_tokens_are_pairwise_distinct() {
    let mut s = fresh_session();
    let t0 = s.create_session_request().handle_token;
    s.complete_create_session(success_event(vec![entry(
        "session_handle",
        StructValue::Str("/s/1".to_string()),
    )]))
    .unwrap();
    let t1 = s.select_sources_request().handle_token;
    let t2 = s.start_request().handle_token;
    s.complete_start(success_event(vec![entry("streams", StructValue::Array(vec![]))]))
        .unwrap();
    let t3 = s.open_remote_request().handle_token;
    let tokens = [t0, t1, t2, t3];
    assert_eq!(tokens, ["0", "1", "2", "3"]);
    for i in 0..4 {
        for j in 0..4 {
            if i != j {
                assert_ne!(tokens[i], tokens[j]);
            }
        }
    }
}

#[test]
fn missing_session_handle_fails_create_session() {
    let mut s = fresh_session();
    s.create_session_request();
    let r = s.complete_create_session(success_event(vec![]));
    let e = r.unwrap_err();
    assert_eq!(e.step, StepName::CreateSession);
    assert_eq!(e.cause, StepCause::MissingField("session_handle".to_string()));
    assert_eq!(e.message(), "create session: fail to get session_handle");
    assert_eq!(s.phase, Phase::Failed);
    assert_eq!(s.session_handle, None);
}

#[test]
fn nonzero_status_counts_as_missing_session_handle() {
    let mut s = fresh_session();
    s.create_session_request();
    let r = s.complete_create_session(Some(CompletionEvent {
        status: 2,
        results: vec![entry("session_handle", StructValue::Str("/s/1".to_string()))],
    }));
    let e = r.unwrap_err();
    assert_eq!(e.cause, StepCause::MissingField("session_handle".to_string()));
    assert_eq!(s.phase, Phase::Failed);
}

#[test]
fn invalid_session_handle_fails_create_session() {
    let mut s = fresh_session();
    s.create_session_request();
    let r = s.complete_create_session(success_event(vec![entry(
        "session_handle",
        StructValue::Str("not/a/path".to_string()),
    )]));
    let e = r.unwrap_err();
    assert_eq!(e.cause, StepCause::InvalidField("session_handle".to_string()));

    let mut s2 = fresh_session();
    s2.create_session_request();
    let r2 = s2.complete_create_session(success_event(vec![entry(
        "session_handle",
        StructValue::U32(4),
    )]));
    assert_eq!(r2.unwrap_err().cause, StepCause::InvalidField("session_handle".to_string()));
}

#[test]
fn closed_stream_fails_the_current_step() {
    let mut s = fresh_session();
    s.create_session_request();
    let e = s.complete_create_session(None).unwrap_err();
    assert_eq!(e.step, StepName::CreateSession);
    assert_eq!(e.cause, StepCause::TransportClosed);
    assert_eq!(e.message(), "create session: fail to receive response");
    assert_eq!(s.phase, Phase::Failed);

    let mut s2 = fresh_session();
    s2.create_session_request();
    s2.complete_create_session(success_event(vec![entry(
        "session_handle",
        StructValue::Str("/s/1".to_string()),
    )]))
    .unwrap();
    s2.select_sources_request();
    s2.start_request();
    let e2 = s2.complete_start(None).unwrap_err();
    assert_eq!(e2.step, StepName::Start);
    assert_eq!(e2.cause, StepCause::TransportClosed);
    assert_eq!(e2.message(), "start select: fail to receive response");
    assert_eq!(s2.phase, Phase::Failed);
}

#[test]
fn missing_streams_fails_start() {
    let mut s = fresh_session();
    s.create_session_request();
    s.complete_create_session(success_event(vec![entry(
        "session_handle",
        StructValue::Str("/s/1".to_string()),
    )]))
    .unwrap();
    s.select_sources_request();
    s.start_request();
    let e = s.complete_start(success_event(vec![])).unwrap_err();
    assert_eq!(e.step, StepName::Start);
    assert_eq!(e.cause, StepCause::MissingField("streams".to_string()));
    assert_eq!(e.message(), "start select: fail to get streams");
    assert!(s.selected_sources().is_empty());
}

#[test]
fn negative_descriptor_fails_open_remote() {
    let mut s = fresh_session();
    s.create_session_request();
    s.complete_create_session(success_event(vec![entry(
        "session_handle",
        StructValue::Str("/s/1".to_string()),
    )]))
    .unwrap();
    s.select_sources_request();
    s.start_request();
    s.complete_start(success_event(vec![entry("streams", StructValue::Array(vec![]))]))
        .unwrap();
    s.open_remote_request();
    let e = s.finish_open_remote(-1).unwrap_err();
    assert_eq!(e.step, StepName::OpenRemote);
    assert_eq!(s.phase, Phase::Failed);
}

#[test]
fn teardown_twice_never_fails() {
    let mut s = fresh_session();
    assert!(s.teardown());
    assert!(!s.teardown());
    assert!(!s.connected);

    let mut never_connected = NegotiationSession::new(
        CursorMode::Hidden,
        SourceType::empty(),
        PersistMode::DoNotPersist,
        false,
    );
    assert!(!never_connected.teardown());
    assert!(!never_connected.teardown());
}

#[test]
fn resolve_completion_passes_the_event_verbatim() {
    let ev = CompletionEvent { status: 0, results: vec![entry("k", StructValue::Bool(true))] };
    let got = resolve_completion(Some(ev)).unwrap();
    assert_eq!(got.status, 0);
    assert_eq!(got.results, vec![entry("k", StructValue::Bool(true))]);
    assert_eq!(resolve_completion(None), Err(StepCause::TransportClosed));
}

#[test]
fn pending_request_records_handle_and_token() {
    let p = PendingRequest::new("/req/7".to_string(), "2".to_string());
    assert_eq!(p.handle, "/req/7");
    assert_eq!(p.token, "2");
}
