//! Session identifiers: one byte, at most 16 concurrent sessions.

use vstd::prelude::*;

use crate::error::{Error, SessionError, SessionErrorKind};

verus! {

/// The device supports at most this many concurrent sessions.
pub const MAX_SESSION_COUNT: u8 = 16;

/// Session/channel IDs: one byte with value 0 to 15.
#[derive(Clone, Copy, Debug, PartialEq, Eq, Structural, Hash)]
pub struct SessionId(pub u8);

impl SessionId {
    /// Whether this session ID is within the range the device supports.
    pub open spec fn wf(self) -> bool {
        self.0 < MAX_SESSION_COUNT
    }

    /// Create a new session ID from a byte; bytes 16 and above are rejected
    /// with a protocol error.
    pub fn new(id: u8) -> (r: Result<Self, SessionError>)
        ensures
            r is Ok <==> id < MAX_SESSION_COUNT,
            r matches Ok(sid) ==> sid == (SessionId(id)) && sid.wf(),
            r matches Err(e) ==> e.kind == SessionErrorKind::ProtocolError,
    {
        if id < MAX_SESSION_COUNT {
            Ok(SessionId(id))
        } else {
            Err(Error::new(SessionErrorKind::ProtocolError, None))
        }
    }

    /// Serialize this session ID as a byte.
    pub fn to_u8(self) -> (r: u8)
        ensures
            r == self.0,
    {
        self.0
    }
}

} // verus!
