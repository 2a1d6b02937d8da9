//! The error taxonomy of a negotiation.
//!
//! Every step-local failure aborts the whole handshake: the caller receives
//! a single [`HandshakeError`] naming the failing step and its cause, and
//! the session must be discarded.

use vstd::prelude::*;
use vstd::string::StringExecFns;
use crate::decode::DecodeError;

verus! {

/// The four steps of the handshake, named for diagnostics.
#[derive(Debug, Copy, Clone, PartialEq, Eq, Structural)]
pub enum StepName {
    /// The create-session step.
    CreateSession,
    /// The select-sources step.
    SelectSources,
    /// The start step.
    Start,
    /// The open-remote step.
    OpenRemote,
}

/// Why a step failed.
#[derive(Debug, PartialEq, Eq)]
pub enum StepCause {
    /// The completion-event stream ended without producing an event.
    TransportClosed,
    /// The result dictionary lacked an expected entry.
    MissingField(String),
    /// An entry was present but did not carry an acceptable value.
    InvalidField(String),
    /// A structured value did not decode.
    Decode(DecodeError),
}

/// A named step failed; the whole handshake is abandoned.
#[derive(Debug, PartialEq, Eq)]
pub struct HandshakeError {
    /// The step that failed.
    pub step: StepName,
    /// What went wrong in it.
    pub cause: StepCause,
}

/// The diagnostic label of a step.
pub open spec fn spec_step_label(s: StepName) -> Seq<char> {
    match s {
        StepName::CreateSession => "create session"@,
        StepName::SelectSources => "select sources"@,
        StepName::Start => "start select"@,
        StepName::OpenRemote => "open remote"@,
    }
}

/// The diagnostic label of a cause.
pub open spec fn spec_cause_label(c: StepCause) -> Seq<char> {
    match c {
        StepCause::TransportClosed => "fail to receive response"@,
        StepCause::MissingField(n) => "fail to get "@ + n@,
        StepCause::InvalidField(n) => "unexpected value for "@ + n@,
        StepCause::Decode(_) => "fail to decode results"@,
    }
}

impl HandshakeError {
    /// The diagnostic message of this error: the step's label, then the
    /// cause's.
    pub open spec fn spec_message(&self) -> Seq<char> {
        spec_step_label(self.step) + ": "@ + spec_cause_label(self.cause)
    }

    /// Render the diagnostic message.
    pub fn message(&self) -> (r: String)
        ensures
            r@ == self.spec_message(),
    {
        let mut s = String::from_str(match self.step {
            StepName::CreateSession => "create session",
            StepName::SelectSources => "select sources",
            StepName::Start => "start select",
            StepName::OpenRemote => "open remote",
        });
        s.append(": ");
        match &self.cause {
            StepCause::TransportClosed => s.append("fail to receive response"),
            StepCause::MissingField(n) => {
                s.append("fail to get ");
                s.append(n.as_str());
            },
            StepCause::InvalidField(n) => {
                s.append("unexpected value for ");
                s.append(n.as_str());
            },
            StepCause::Decode(_) => s.append("fail to decode results"),
        }
        proof {
            assert(s@ =~= self.spec_message());
        }
        s
    }
}

} // verus!
