//! The negotiation orchestrator.
//!
//! One [`NegotiationSession`] drives the fixed four-step handshake —
//! create session, select sources, start, open remote — strictly in order,
//! each step depending on state produced by the previous one. The session
//! is a pure state machine: for each step it mints the request payload, and
//! it consumes what the transport layer observed (the single completion
//! event of the step's request handle, or the end of that event stream).
//! The transport calls themselves are the caller's business.
//!
//! One asymmetry of the protocol is kept deliberately: the select-sources
//! step does not wait for its completion event, because the broker reports
//! acceptance of the selection only at the start step; the open-remote call
//! returns its handle directly rather than through a correlated event.

use vstd::prelude::*;
use vstd::string::StringExecFns;
use crate::config::{CursorMode, PersistMode, SourceType};
use crate::correlate::{resolve_completion, CompletionEvent};
use crate::decode::{
    all_decode_ok, decode_sources, first_decode_failure, spec_decoded_sources, SelectedSource,
};
use crate::error::{HandshakeError, StepCause, StepName};
use crate::object_path::{is_valid_object_path, valid_object_path};
use crate::token::{
    lemma_request_tokens_distinct, lemma_session_token_not_request_token,
    lemma_session_tokens_distinct, render_request_token, render_session_token, request_token,
    session_token,
};
use crate::value::{dict_get, dict_lookup, StructValue};

verus! {

/// How far a session's handshake has come.
#[derive(Debug, Copy, Clone, PartialEq, Eq, Structural)]
pub enum Phase {
    /// Nothing sent yet.
    Created,
    /// The create-session request is out; its completion is awaited.
    SessionRequested,
    /// The session handle is known; the select-sources request is next.
    SourcesToSelect,
    /// Sources were requested; the start request is next.
    StartToSend,
    /// The start request is out; its completion is awaited.
    StartRequested,
    /// The granted sources are known; the open-remote call is next.
    RemoteToOpen,
    /// The open-remote call is out; its direct result is awaited.
    RemoteRequested,
    /// The handshake completed and produced a capture handle.
    Done,
    /// A step failed; the session is abandoned.
    Failed,
}

/// What the create-session request carries: two freshly minted tokens. They
/// are distinct because the broker correlates them differently — one names
/// the session being created, the other the request itself.
pub struct CreateSessionRequest {
    /// The session-identity token.
    pub session_handle_token: String,
    /// The request-identity token.
    pub handle_token: String,
}

/// What the select-sources request carries: the session it is scoped to,
/// a fresh request token, and the caller's configuration in the broker's
/// numeric encodings.
pub struct SelectSourcesRequest {
    /// The session handle the request is scoped to.
    pub session_handle: String,
    /// The request-identity token.
    pub handle_token: String,
    /// Whether several sources may be picked.
    pub multiple: bool,
    /// The requested source kinds, as a bit-set.
    pub types: u32,
    /// The persistence mode's encoding.
    pub persist_mode: u32,
    /// The cursor mode's encoding.
    pub cursor_mode: u32,
}

/// What the start request carries.
pub struct StartRequest {
    /// The session handle the request is scoped to.
    pub session_handle: String,
    /// The identifier of the parent window; empty, as no window owns the
    /// dialog here.
    pub parent_window: String,
    /// The request-identity token.
    pub handle_token: String,
}

/// What the open-remote call carries. The call returns the capture handle
/// directly, so it sends no options; the token is minted all the same so
/// that every step consumes one counter value.
pub struct OpenRemoteRequest {
    /// The session handle the call is scoped to.
    pub session_handle: String,
    /// The token minted for this step; not part of the call's payload.
    pub handle_token: String,
}

/// One end-to-end handshake attempt and its session-scoped state.
pub struct NegotiationSession {
    /// How the cursor is to be captured.
    pub cursor_mode: CursorMode,
    /// Which source kinds the user may pick from.
    pub source_type: SourceType,
    /// Whether the selection may persist beyond the session.
    pub persist_mode: PersistMode,
    /// Whether several sources may be picked.
    pub multiple_source: bool,
    /// Whether a transport connection is currently held.
    pub connected: bool,
    /// How far the handshake has come.
    pub phase: Phase,
    /// Counts the minted tokens; never repeats a value within the session.
    pub counter: u64,
    /// The broker-assigned session handle, once create-session succeeded.
    pub session_handle: Option<String>,
    /// The granted sources, populated once by a successful start step.
    pub selected_sources: Vec<SelectedSource>,
}

impl NegotiationSession {
    /// The token counter each phase implies: every request mints exactly
    /// one counter value, in the fixed step order.
    pub open spec fn counter_fits_phase(&self) -> bool {
        match self.phase {
            Phase::Created => self.counter == 0,
            Phase::SessionRequested => self.counter == 1,
            Phase::SourcesToSelect => self.counter == 1,
            Phase::StartToSend => self.counter == 2,
            Phase::StartRequested => self.counter == 3,
            Phase::RemoteToOpen => self.counter == 3,
            Phase::RemoteRequested => self.counter == 4,
            Phase::Done => self.counter == 4,
            Phase::Failed => self.counter <= 4,
        }
    }

    /// Whether the session handle must be known in this phase.
    pub open spec fn handle_known_phase(&self) -> bool {
        match self.phase {
            Phase::SourcesToSelect | Phase::StartToSend | Phase::StartRequested
                | Phase::RemoteToOpen | Phase::RemoteRequested | Phase::Done => true,
            _ => false,
        }
    }

    /// Whether the granted sources may be populated in this phase.
    pub open spec fn sources_known_phase(&self) -> bool {
        match self.phase {
            Phase::RemoteToOpen | Phase::RemoteRequested | Phase::Done | Phase::Failed => true,
            _ => false,
        }
    }

    /// Whether a valid session handle is held.
    pub open spec fn handle_valid(&self) -> bool {
        self.session_handle matches Some(h) && valid_object_path(h@)
    }

    /// The session invariant: the counter matches the phase, the session
    /// handle is present and valid exactly from the moment create-session
    /// succeeded, and the source list stays empty until the start step
    /// populated it.
    pub open spec fn wf(&self) -> bool {
        &&& self.counter_fits_phase()
        &&& (self.handle_known_phase() ==> self.handle_valid())
        &&& (!self.handle_known_phase() && !(self.phase is Failed) ==> self.session_handle
            is None)
        &&& (!self.sources_known_phase() ==> self.selected_sources@.len() == 0)
    }

    /// The caller-supplied configuration, unchanged between two states.
    pub open spec fn same_config(a: Self, b: Self) -> bool {
        &&& a.cursor_mode == b.cursor_mode
        &&& a.source_type == b.source_type
        &&& a.persist_mode == b.persist_mode
        &&& a.multiple_source == b.multiple_source
    }

    /// A fresh session around the given configuration: not connected,
    /// nothing sent, no handle, no sources, counter at zero.
    pub fn new(
        cursor_mode: CursorMode,
        source_type: SourceType,
        persist_mode: PersistMode,
        multiple_source: bool,
    ) -> (r: Self)
        ensures
            r.wf(),
            r.cursor_mode == cursor_mode,
            r.source_type == source_type,
            r.persist_mode == persist_mode,
            r.multiple_source == multiple_source,
            !r.connected,
            r.phase is Created,
            r.counter == 0,
            r.session_handle is None,
            r.selected_sources@.len() == 0,
    {
        NegotiationSession {
            cursor_mode,
            source_type,
            persist_mode,
            multiple_source,
            connected: false,
            phase: Phase::Created,
            counter: 0,
            session_handle: None,
            selected_sources: Vec::new(),
        }
    }

    /// Note that a transport connection was established.
    pub fn connection_established(&mut self)
        ensures
            *final(self) == (NegotiationSession { connected: true, ..*old(self) }),
    {
        self.connected = true;
    }

    /// Read the granted sources; empty until the start step succeeded.
    pub fn selected_sources(&self) -> (r: &Vec<SelectedSource>)
        ensures
            r@ == self.selected_sources@,
    {
        &self.selected_sources
    }

    /// Mint the create-session request: a session token and a request
    /// token, distinct from one another, both derived from the counter,
    /// which advances.
    pub fn create_session_request(&mut self) -> (r: CreateSessionRequest)
        requires
            old(self).wf(),
            old(self).phase is Created,
            old(self).connected,
        ensures
            final(self).wf(),
            *final(self) == (NegotiationSession {
                phase: Phase::SessionRequested,
                counter: (old(self).counter + 1) as u64,
                ..*old(self)
            }),
            r.session_handle_token@ == session_token(old(self).counter as nat),
            r.handle_token@ == request_token(old(self).counter as nat),
            r.session_handle_token@ != r.handle_token@,
    {
        let session_handle_token = render_session_token(self.counter);
        let handle_token = render_request_token(self.counter);
        proof {
            lemma_session_token_not_request_token(
                old(self).counter as nat,
                old(self).counter as nat,
            );
        }
        self.counter = self.counter + 1;
        self.phase = Phase::SessionRequested;
        CreateSessionRequest { session_handle_token, handle_token }
    }

    /// Consume what the create-session request's event stream produced.
    /// On a success event carrying a valid `session_handle`, the handle is
    /// recorded and the select-sources step is next; anything else fails
    /// the handshake with the exact cause.
    pub fn complete_create_session(&mut self, event: Option<CompletionEvent>) -> (r: Result<
        (),
        HandshakeError,
    >)
        requires
            old(self).wf(),
            old(self).phase is SessionRequested,
        ensures
            final(self).wf(),
            Self::same_config(*old(self), *final(self)),
            final(self).connected == old(self).connected,
            final(self).counter == old(self).counter,
            final(self).selected_sources@ == old(self).selected_sources@,
            match r {
                Ok(()) => {
                    &&& extracted_session_handle(event) is Some
                    &&& final(self).phase is SourcesToSelect
                    &&& final(self).session_handle matches Some(sh) && Some(sh@)
                        == extracted_session_handle(event)
                },
                Err(e) => {
                    &&& extracted_session_handle(event) is None
                    &&& final(self).phase is Failed
                    &&& final(self).session_handle is None
                    &&& e.step is CreateSession
                    &&& create_session_cause(event, e.cause)
                },
            },
    {
        match resolve_completion(event) {
            Err(cause) => {
                self.phase = Phase::Failed;
                Err(HandshakeError { step: StepName::CreateSession, cause })
            },
            Ok(ev) => {
                if ev.status != 0 {
                    self.phase = Phase::Failed;
                    return Err(HandshakeError {
                        step: StepName::CreateSession,
                        cause: StepCause::MissingField(String::from_str("session_handle")),
                    });
                }
                let key = String::from_str("session_handle");
                match dict_get(&ev.results, &key) {
                    None => {
                        self.phase = Phase::Failed;
                        Err(HandshakeError {
                            step: StepName::CreateSession,
                            cause: StepCause::MissingField(String::from_str("session_handle")),
                        })
                    },
                    Some(StructValue::Str(s)) => {
                        if is_valid_object_path(s.as_str()) {
                            self.session_handle = Some(s.clone());
                            self.phase = Phase::SourcesToSelect;
                            Ok(())
                        } else {
                            self.phase = Phase::Failed;
                            Err(HandshakeError {
                                step: StepName::CreateSession,
                                cause: StepCause::InvalidField(
                                    String::from_str("session_handle"),
                                ),
                            })
                        }
                    },
                    Some(_) => {
                        self.phase = Phase::Failed;
                        Err(HandshakeError {
                            step: StepName::CreateSession,
                            cause: StepCause::InvalidField(String::from_str("session_handle")),
                        })
                    },
                }
            },
        }
    }

    /// Clone the held session handle.
    fn session_handle_string(&self) -> (r: String)
        requires
            self.session_handle is Some,
        ensures
            self.session_handle matches Some(h) && r@ == h@,
    {
        match &self.session_handle {
            Some(h) => h.clone(),
            None => {
                proof {
                    assert(false);
                }
                String::new()
            },
        }
    }

    /// Mint the select-sources request: the known session handle, a fresh
    /// token, and the configuration in the broker's encodings. The step's
    /// completion event is deliberately not awaited — the broker reports
    /// acceptance of the selection only when the start step completes — so
    /// the start request is next at once.
    pub fn select_sources_request(&mut self) -> (r: SelectSourcesRequest)
        requires
            old(self).wf(),
            old(self).phase is SourcesToSelect,
            old(self).connected,
        ensures
            final(self).wf(),
            *final(self) == (NegotiationSession {
                phase: Phase::StartToSend,
                counter: (old(self).counter + 1) as u64,
                ..*old(self)
            }),
            old(self).session_handle matches Some(h) && r.session_handle@ == h@,
            r.handle_token@ == request_token(old(self).counter as nat),
            r.multiple == old(self).multiple_source,
            r.types == old(self).source_type.spec_bits(),
            r.persist_mode == old(self).persist_mode.spec_to_u32(),
            r.cursor_mode == old(self).cursor_mode.spec_to_u32(),
    {
        let handle_token = render_request_token(self.counter);
        let session_handle = self.session_handle_string();
        let types = self.source_type.bits();
        let persist_mode = self.persist_mode.to_u32();
        let cursor_mode = self.cursor_mode.to_u32();
        let multiple = self.multiple_source;
        self.counter = self.counter + 1;
        self.phase = Phase::StartToSend;
        SelectSourcesRequest {
            session_handle,
            handle_token,
            multiple,
            types,
            persist_mode,
            cursor_mode,
        }
    }

    /// Mint the start request: the session handle, an empty parent-window
    /// identifier, and a fresh token. Its completion event carries the
    /// granted sources.
    pub fn start_request(&mut self) -> (r: StartRequest)
        requires
            old(self).wf(),
            old(self).phase is StartToSend,
            old(self).connected,
        ensures
            final(self).wf(),
            *final(self) == (NegotiationSession {
                phase: Phase::StartRequested,
                counter: (old(self).counter + 1) as u64,
                ..*old(self)
            }),
            old(self).session_handle matches Some(h) && r.session_handle@ == h@,
            r.parent_window@ == Seq::<char>::empty(),
            r.handle_token@ == request_token(old(self).counter as nat),
    {
        let handle_token = render_request_token(self.counter);
        let session_handle = self.session_handle_string();
        self.counter = self.counter + 1;
        self.phase = Phase::StartRequested;
        StartRequest { session_handle, parent_window: String::new(), handle_token }
    }

    /// Consume what the start request's event stream produced. On a
    /// success event whose `streams` entry is an array of decodable
    /// sources, the decoded records are stored — the one write this list
    /// ever sees — and the open-remote step is next; anything else fails
    /// the handshake with the exact cause.
    pub fn complete_start(&mut self, event: Option<CompletionEvent>) -> (r: Result<
        (),
        HandshakeError,
    >)
        requires
            old(self).wf(),
            old(self).phase is StartRequested,
        ensures
            final(self).wf(),
            Self::same_config(*old(self), *final(self)),
            final(self).connected == old(self).connected,
            final(self).counter == old(self).counter,
            final(self).session_handle == old(self).session_handle,
            match r {
                Ok(()) => {
                    &&& extracted_streams(event) matches Some(items) && all_decode_ok(items)
                        && final(self).selected_sources@ == spec_decoded_sources(items)
                    &&& final(self).phase is RemoteToOpen
                },
                Err(e) => {
                    &&& final(self).phase is Failed
                    &&& final(self).selected_sources@ == old(self).selected_sources@
                    &&& e.step is Start
                    &&& start_cause(event, e.cause)
                },
            },
    {
        match resolve_completion(event) {
            Err(cause) => {
                self.phase = Phase::Failed;
                Err(HandshakeError { step: StepName::Start, cause })
            },
            Ok(ev) => {
                if ev.status != 0 {
                    self.phase = Phase::Failed;
                    return Err(HandshakeError {
                        step: StepName::Start,
                        cause: StepCause::MissingField(String::from_str("streams")),
                    });
                }
                let key = String::from_str("streams");
                match dict_get(&ev.results, &key) {
                    None => {
                        self.phase = Phase::Failed;
                        Err(HandshakeError {
                            step: StepName::Start,
                            cause: StepCause::MissingField(String::from_str("streams")),
                        })
                    },
                    Some(StructValue::Array(items)) => {
                        match decode_sources(items) {
                            Ok(list) => {
                                self.selected_sources = list;
                                self.phase = Phase::RemoteToOpen;
                                Ok(())
                            },
                            Err(de) => {
                                self.phase = Phase::Failed;
                                Err(HandshakeError {
                                    step: StepName::Start,
                                    cause: StepCause::Decode(de),
                                })
                            },
                        }
                    },
                    Some(_) => {
                        self.phase = Phase::Failed;
                        Err(HandshakeError {
                            step: StepName::Start,
                            cause: StepCause::Decode(crate::decode::DecodeError::UnexpectedShape),
                        })
                    },
                }
            },
        }
    }

    /// Mint the open-remote call: the session handle alone. The broker
    /// answers this call directly with the capture handle, so there is no
    /// completion event to wait for; the minted token only consumes the
    /// step's counter value.
    pub fn open_remote_request(&mut self) -> (r: OpenRemoteRequest)
        requires
            old(self).wf(),
            old(self).phase is RemoteToOpen,
            old(self).connected,
        ensures
            final(self).wf(),
            *final(self) == (NegotiationSession {
                phase: Phase::RemoteRequested,
                counter: (old(self).counter + 1) as u64,
                ..*old(self)
            }),
            old(self).session_handle matches Some(h) && r.session_handle@ == h@,
            r.handle_token@ == request_token(old(self).counter as nat),
    {
        let handle_token = render_request_token(self.counter);
        let session_handle = self.session_handle_string();
        self.counter = self.counter + 1;
        self.phase = Phase::RemoteRequested;
        OpenRemoteRequest { session_handle, handle_token }
    }

    /// Consume the open-remote call's direct result. A transport that
    /// answered at all hands over a non-negative descriptor; anything else
    /// is a protocol violation and fails the handshake.
    pub fn finish_open_remote(&mut self, fd: i32) -> (r: Result<i32, HandshakeError>)
        requires
            old(self).wf(),
            old(self).phase is RemoteRequested,
        ensures
            final(self).wf(),
            Self::same_config(*old(self), *final(self)),
            final(self).connected == old(self).connected,
            final(self).counter == old(self).counter,
            final(self).session_handle == old(self).session_handle,
            final(self).selected_sources@ == old(self).selected_sources@,
            fd >= 0 ==> r == Ok::<i32, HandshakeError>(fd) && final(self).phase is Done,
            fd < 0 ==> ({
                &&& r matches Err(e)
                &&& e.step is OpenRemote
                &&& e.cause matches StepCause::InvalidField(n) && n@ == "fd"@
                &&& final(self).phase is Failed
            }),
    {
        if fd >= 0 {
            self.phase = Phase::Done;
            Ok(fd)
        } else {
            self.phase = Phase::Failed;
            Err(HandshakeError {
                step: StepName::OpenRemote,
                cause: StepCause::InvalidField(String::from_str("fd")),
            })
        }
    }

    /// Release the session's claim on the transport. Returns whether a
    /// connection was held and must now actually be closed; a session that
    /// holds none makes the call a no-op, so repeating a teardown never
    /// has anything left to fail on.
    pub fn teardown(&mut self) -> (close: bool)
        ensures
            *final(self) == after_teardown(*old(self)),
            close == old(self).connected,
    {
        let was = self.connected;
        self.connected = false;
        was
    }
}

impl Default for NegotiationSession {
    /// A fresh session around the default configuration: hidden cursor, no
    /// source kind requested, no persistence, single selection.
    fn default() -> (r: Self)
        ensures
            r.wf(),
            r.cursor_mode is Hidden,
            r.source_type.spec_bits() == 0,
            r.persist_mode is DoNotPersist,
            !r.multiple_source,
            !r.connected,
            r.phase is Created,
            r.counter == 0,
            r.session_handle is None,
            r.selected_sources@.len() == 0,
    {
        NegotiationSession::new(
            CursorMode::Hidden,
            SourceType::empty(),
            PersistMode::DoNotPersist,
            false,
        )
    }
}

/// A session after teardown: the same session without its connection.
pub open spec fn after_teardown(s: NegotiationSession) -> NegotiationSession {
    NegotiationSession { connected: false, ..s }
}

/// The named entry of a completion event's results, provided the event
/// arrived and reported success.
pub open spec fn result_field(event: Option<CompletionEvent>, name: Seq<char>) -> Option<
    StructValue,
> {
    match event {
        None => None,
        Some(e) => if e.status != 0 {
            None
        } else {
            dict_lookup(e.results@, name)
        },
    }
}

/// Whether a result entry is an acceptable session handle: a string
/// holding a valid object path.
pub open spec fn handle_value_valid(v: StructValue) -> bool {
    v matches StructValue::Str(s) && valid_object_path(s@)
}

/// The session handle a create-session completion carries, provided it is
/// a string holding a valid object path.
pub open spec fn extracted_session_handle(event: Option<CompletionEvent>) -> Option<Seq<char>> {
    match result_field(event, "session_handle"@) {
        Some(StructValue::Str(s)) => if valid_object_path(s@) {
            Some(s@)
        } else {
            None
        },
        _ => None,
    }
}

/// The exact cause a create-session completion is rejected with.
pub open spec fn create_session_cause(event: Option<CompletionEvent>, c: StepCause) -> bool {
    match event {
        None => c is TransportClosed,
        Some(ev) => if ev.status != 0 {
            c matches StepCause::MissingField(n) && n@ == "session_handle"@
        } else {
            match dict_lookup(ev.results@, "session_handle"@) {
                None => c matches StepCause::MissingField(n) && n@ == "session_handle"@,
                Some(v) => {
                    &&& !handle_value_valid(v)
                    &&& c matches StepCause::InvalidField(n) && n@ == "session_handle"@
                },
            }
        },
    }
}

/// The array of granted sources a start completion carries, if any.
pub open spec fn extracted_streams(event: Option<CompletionEvent>) -> Option<Seq<StructValue>> {
    match result_field(event, "streams"@) {
        Some(StructValue::Array(items)) => Some(items@),
        _ => None,
    }
}

/// The exact cause a start completion is rejected with.
pub open spec fn start_cause(event: Option<CompletionEvent>, c: StepCause) -> bool {
    match event {
        None => c is TransportClosed,
        Some(ev) => if ev.status != 0 {
            c matches StepCause::MissingField(n) && n@ == "streams"@
        } else {
            match dict_lookup(ev.results@, "streams"@) {
                None => c matches StepCause::MissingField(n) && n@ == "streams"@,
                Some(StructValue::Array(items)) => {
                    &&& !all_decode_ok(items@)
                    &&& c matches StepCause::Decode(de) && first_decode_failure(items@, de)
                },
                Some(v) => {
                    &&& !(v is Array)
                    &&& c matches StepCause::Decode(de) && de is UnexpectedShape
                },
            }
        },
    }
}

/// Tokens never repeat within one session: distinct counter values yield
/// distinct request tokens and distinct session tokens, and a session token
/// never equals a request token — in particular, the four request tokens of
/// one handshake, minted at counter values 0, 1, 2 and 3, are pairwise
/// distinct, as are the two tokens of the create-session step.
pub proof fn lemma_token_uniqueness(a: u64, b: u64)
    requires
        a != b,
    ensures
        request_token(a as nat) != request_token(b as nat),
        session_token(a as nat) != session_token(b as nat),
        session_token(a as nat) != request_token(b as nat),
        session_token(a as nat) != request_token(a as nat),
{
    lemma_request_tokens_distinct(a as nat, b as nat);
    lemma_session_tokens_distinct(a as nat, b as nat);
    lemma_session_token_not_request_token(a as nat, b as nat);
    lemma_session_token_not_request_token(a as nat, a as nat);
}

/// A failed session satisfies no step's entry condition: once a step has
/// failed, no later request — select sources, start, open remote — can be
/// minted, so the handshake stops at the first failure.
pub proof fn lemma_failure_halts(s: NegotiationSession)
    requires
        s.phase is Failed,
    ensures
        !(s.phase is Created),
        !(s.phase is SourcesToSelect),
        !(s.phase is StartToSend),
        !(s.phase is RemoteToOpen),
{
}

/// Teardown is idempotent in effect: after one teardown no connection is
/// held, so a repeated teardown has nothing to close and is a no-op that
/// cannot fail.
pub proof fn lemma_teardown_idempotent(s: NegotiationSession)
    ensures
        !after_teardown(s).connected,
        after_teardown(after_teardown(s)) == after_teardown(s),
{
}

/// A handshake never ends in success and failure at once: a session that
/// reached the final phase carries only sources with non-negative
/// identifiers, and a failed session never reaches it.
pub proof fn lemma_success_sources_nonnegative(s: NegotiationSession)
    requires
        s.phase is Done,
    ensures
        forall|i: int| 0 <= i < s.selected_sources@.len() ==> s.selected_sources@[i].id >= 0,
        !(s.phase is Failed),
{
}

} // verus!
