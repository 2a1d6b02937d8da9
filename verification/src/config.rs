//! Configuration value objects: how a negotiation parameterizes its requests.
//!
//! The broker speaks in small numeric encodings; the domain model keeps the
//! enumerations and the bit-set abstract, with an explicit encoding function
//! used only when a request payload is built.

use vstd::prelude::*;

verus! {

/// How the cursor is to be handled in the capture stream.
#[derive(Debug, Copy, Clone, PartialEq, Eq, Structural)]
pub enum CursorMode {
    /// The cursor is not part of the stream.
    Hidden,
    /// The cursor is drawn into the stream.
    Embedded,
    /// Cursor positions are delivered as stream metadata.
    Metadata,
}

impl CursorMode {
    /// The broker's numeric encoding of this mode.
    pub open spec fn spec_to_u32(&self) -> u32 {
        match self {
            CursorMode::Hidden => 1,
            CursorMode::Embedded => 2,
            CursorMode::Metadata => 4,
        }
    }

    /// Encode the mode as the broker expects it.
    pub fn to_u32(&self) -> (r: u32)
        ensures
            r == self.spec_to_u32(),
    {
        match self {
            CursorMode::Hidden => 1,
            CursorMode::Embedded => 2,
            CursorMode::Metadata => 4,
        }
    }
}

impl Default for CursorMode {
    fn default() -> (r: Self)
        ensures
            r is Hidden,
    {
        CursorMode::Hidden
    }
}

/// Whether the user's source selection may be restored in later sessions.
#[derive(Debug, Copy, Clone, PartialEq, Eq, Structural)]
pub enum PersistMode {
    /// The selection is forgotten when the session ends.
    DoNotPersist,
    /// The selection may be restored while the application runs.
    AsApplication,
    /// The selection may be restored until explicitly revoked.
    UntilRevoked,
}

impl PersistMode {
    /// The broker's numeric encoding of this mode.
    pub open spec fn spec_to_u32(&self) -> u32 {
        match self {
            PersistMode::DoNotPersist => 0,
            PersistMode::AsApplication => 1,
            PersistMode::UntilRevoked => 2,
        }
    }

    /// Encode the mode as the broker expects it.
    pub fn to_u32(&self) -> (r: u32)
        ensures
            r == self.spec_to_u32(),
    {
        match self {
            PersistMode::DoNotPersist => 0,
            PersistMode::AsApplication => 1,
            PersistMode::UntilRevoked => 2,
        }
    }
}

impl Default for PersistMode {
    fn default() -> (r: Self)
        ensures
            r is DoNotPersist,
    {
        PersistMode::DoNotPersist
    }
}

/// The set of capture-source kinds a negotiation asks for.
///
/// Kept as an explicit set of flags; the bit representation exists only at
/// the request boundary, through [`SourceType::bits`].
#[derive(Debug, Copy, Clone, PartialEq, Eq, Structural)]
pub struct SourceType {
    /// Whole monitors may be selected.
    pub monitor: bool,
    /// Individual windows may be selected.
    pub window: bool,
    /// Virtual sources may be selected.
    pub virtual_source: bool,
}

impl SourceType {
    /// The broker's bit-set encoding of this set: monitors are bit 0,
    /// windows bit 1, virtual sources bit 2.
    pub open spec fn spec_bits(&self) -> u32 {
        ((if self.monitor {
            1int
        } else {
            0int
        }) + (if self.window {
            2int
        } else {
            0int
        }) + (if self.virtual_source {
            4int
        } else {
            0int
        })) as u32
    }

    /// The empty set: no source kind requested.
    pub fn empty() -> (r: Self)
        ensures
            !r.monitor,
            !r.window,
            !r.virtual_source,
            r.spec_bits() == 0,
    {
        SourceType { monitor: false, window: false, virtual_source: false }
    }

    /// The set holding exactly the kinds given.
    pub fn new(monitor: bool, window: bool, virtual_source: bool) -> (r: Self)
        ensures
            r.monitor == monitor,
            r.window == window,
            r.virtual_source == virtual_source,
    {
        SourceType { monitor, window, virtual_source }
    }

    /// Encode the set as the broker's bit-set integer.
    pub fn bits(&self) -> (r: u32)
        ensures
            r == self.spec_bits(),
    {
        let m: u32 = if self.monitor {
            1
        } else {
            0
        };
        let w: u32 = if self.window {
            2
        } else {
            0
        };
        let v: u32 = if self.virtual_source {
            4
        } else {
            0
        };
        m + w + v
    }
}

impl Default for SourceType {
    fn default() -> (r: Self)
        ensures
            !r.monitor,
            !r.window,
            !r.virtual_source,
    {
        SourceType { monitor: false, window: false, virtual_source: false }
    }
}

} // verus!
