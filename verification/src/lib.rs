//! Client-side logic for negotiating a desktop screen-capture session with a
//! privileged broker over an inter-process message bus.
//!
//! The crate covers the protocol core alone: the four-step negotiation state
//! machine, the correlation of asynchronous completion events with the
//! requests that produced them, and the decoding of the broker's
//! loosely-typed structured replies into typed records. The bus transport
//! itself is an external collaborator; callers perform the actual calls and
//! feed the replies back into the state machine.

pub mod config;
pub mod correlate;
pub mod decode;
pub mod error;
pub mod object_path;
pub mod session;
pub mod token;
pub mod value;
