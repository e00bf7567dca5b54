//! Command and response APDUs and their byte-level framing.
//!
//! On-wire layout of both directions: one code byte, a big-endian 16-bit
//! length counting every byte after the length field, an optional session ID
//! byte, the payload, and an optional 8-byte truncated CMAC tag. Session ID
//! and MAC presence is a function of the code alone.

use vstd::prelude::*;

use crate::bytes::{copy_range, spec_be16, spec_read_be16, write_be16};
use crate::codes::{CommandCode, ResponseCode};
use crate::error::{Error, SessionError, SessionErrorKind};
use crate::mac::{Mac, MAC_SIZE};
use crate::session_id::{SessionId, MAX_SESSION_COUNT};

verus! {

/// Maximum size of a message payload sent to or from the device.
pub const MAX_MSG_SIZE: usize = 2048;

/// Do commands with the given code carry a session ID and a C-MAC?
pub open spec fn spec_command_has_mac(code: CommandCode) -> bool {
    code == CommandCode::AuthSession || code == CommandCode::SessionMessage
}

/// Do commands with the given code carry a session ID and a C-MAC?
pub fn command_has_mac(code: CommandCode) -> (r: bool)
    ensures
        r == spec_command_has_mac(code),
{
    match code {
        CommandCode::AuthSession | CommandCode::SessionMessage => true,
        _ => false,
    }
}

/// Do responses with the given code include a session ID?
pub open spec fn spec_has_session_id(code: ResponseCode) -> bool {
    code == ResponseCode::Success(CommandCode::CreateSession) || code == ResponseCode::Success(
        CommandCode::SessionMessage,
    )
}

/// Do responses with the given code include a session ID?
pub fn has_session_id(code: ResponseCode) -> (r: bool)
    ensures
        r == spec_has_session_id(code),
{
    match code {
        ResponseCode::Success(command_type) => match command_type {
            CommandCode::CreateSession | CommandCode::SessionMessage => true,
            _ => false,
        },
        _ => false,
    }
}

/// Do responses with the given code have a response MAC (R-MAC) value?
pub open spec fn spec_has_rmac(code: ResponseCode) -> bool {
    code == ResponseCode::Success(CommandCode::SessionMessage)
}

/// Do responses with the given code have a response MAC (R-MAC) value?
pub fn has_rmac(code: ResponseCode) -> (r: bool)
    ensures
        r == spec_has_rmac(code),
{
    match code {
        ResponseCode::Success(command_type) => match command_type {
            CommandCode::SessionMessage => true,
            _ => false,
        },
        _ => false,
    }
}

/// The bytes an optional session ID contributes to a frame.
pub open spec fn spec_opt_session_id_bytes(session_id: Option<SessionId>) -> Seq<u8> {
    match session_id {
        Some(id) => seq![id.0],
        None => Seq::empty(),
    }
}

/// The bytes an optional MAC contributes to a frame.
pub open spec fn spec_opt_mac_bytes(mac: Option<Mac>) -> Seq<u8> {
    match mac {
        Some(m) => m@,
        None => Seq::empty(),
    }
}

/// A command sent from the host to the device. May or may not be
/// authenticated using SCP03's chained/evolving MAC protocol.
#[derive(Debug)]
pub struct CommandMessage {
    /// Type of command to be invoked.
    pub command_type: CommandCode,
    /// Session ID for this command.
    pub session_id: Option<SessionId>,
    /// Command data field (i.e. message payload).
    pub data: Vec<u8>,
    /// Optional message authentication code (MAC).
    pub mac: Option<Mac>,
}

impl CommandMessage {
    /// Length of the serialized message, sans command type and length field.
    pub open spec fn spec_len(&self) -> int {
        self.data@.len() + (if self.session_id is Some {
            1int
        } else {
            0int
        }) + (if self.mac is Some {
            MAC_SIZE as int
        } else {
            0int
        })
    }

    /// Well-formedness: the payload is bounded, the optional fields have
    /// their proper lengths, and their presence matches the command code.
    pub open spec fn wf(&self) -> bool {
        &&& self.data@.len() <= MAX_MSG_SIZE
        &&& (self.session_id matches Some(id) ==> id.wf())
        &&& (self.mac matches Some(m) ==> m.wf())
        &&& (if spec_command_has_mac(self.command_type) {
            self.session_id is Some && self.mac is Some
        } else {
            self.session_id is None && self.mac is None
        })
    }

    /// The serialized form: code, big-endian length, then optional session
    /// ID, payload, and optional MAC.
    pub open spec fn spec_serialized(&self) -> Seq<u8> {
        seq![self.command_type.spec_to_u8()] + spec_be16(self.spec_len() as u16)
            + spec_opt_session_id_bytes(self.session_id) + self.data@ + spec_opt_mac_bytes(
            self.mac,
        )
    }

    /// Create a new command message without a MAC. Payloads longer than
    /// `MAX_MSG_SIZE` are rejected with a protocol error.
    pub fn new(command_type: CommandCode, command_data: Vec<u8>) -> (r: Result<
        Self,
        SessionError,
    >)
        ensures
            r is Ok <==> command_data@.len() <= MAX_MSG_SIZE,
            r matches Ok(m) ==> {
                &&& m.command_type == command_type
                &&& m.session_id is None
                &&& m.data@ == command_data@
                &&& m.mac is None
            },
            r matches Err(e) ==> e.kind == SessionErrorKind::ProtocolError,
    {
        if command_data.len() > MAX_MSG_SIZE {
            return Err(Error::new(SessionErrorKind::ProtocolError, None));
        }
        Ok(Self { command_type, session_id: None, data: command_data, mac: None })
    }

    /// Create a new command message with a session ID and MAC. Payloads
    /// longer than `MAX_MSG_SIZE` are rejected with a protocol error.
    pub fn new_with_mac(
        command_type: CommandCode,
        session_id: SessionId,
        command_data: Vec<u8>,
        mac: Mac,
    ) -> (r: Result<Self, SessionError>)
        ensures
            r is Ok <==> command_data@.len() <= MAX_MSG_SIZE,
            r matches Ok(m) ==> {
                &&& m.command_type == command_type
                &&& m.session_id == Some(session_id)
                &&& m.data@ == command_data@
                &&& m.mac matches Some(t) && t@ == mac@
            },
            r matches Err(e) ==> e.kind == SessionErrorKind::ProtocolError,
    {
        if command_data.len() > MAX_MSG_SIZE {
            return Err(Error::new(SessionErrorKind::ProtocolError, None));
        }
        Ok(Self { command_type, session_id: Some(session_id), data: command_data, mac: Some(mac) })
    }

    /// Calculate the length of the serialized message, sans command type and
    /// length field.
    pub fn len(&self) -> (r: usize)
        requires
            self.spec_len() <= usize::MAX,
        ensures
            r == self.spec_len(),
    {
        let mut result = self.data.len();
        if self.session_id.is_some() {
            result = result + 1;
        }
        if self.mac.is_some() {
            result = result + MAC_SIZE;
        }
        result
    }

    /// Serialize this command, consuming it and producing the wire bytes.
    pub fn into_vec(self) -> (r: Vec<u8>)
        requires
            self.spec_len() <= u16::MAX,
        ensures
            r@ == self.spec_serialized(),
    {
        let mut result: Vec<u8> = Vec::new();
        result.push(self.command_type.to_u8());
        let len = self.len();
        write_be16(&mut result, len as u16);
        match &self.session_id {
            Some(id) => result.push(id.to_u8()),
            None => {},
        }
        result.extend_from_slice(self.data.as_slice());
        match &self.mac {
            Some(m) => result.extend_from_slice(m.as_slice()),
            None => {},
        }
        proof {
            assert(result@ =~= self.spec_serialized());
        }
        result
    }

    /// Parse a command structure from a vector, taking ownership of the
    /// vector.
    pub fn parse(bytes: Vec<u8>) -> (r: Result<Self, SessionError>)
        ensures
            r is Ok <==> spec_command_frame_ok(bytes@),
            r matches Ok(m) ==> {
                &&& m.command_type == CommandCode::spec_from_u8(bytes@[0])->0
                &&& m.data@ == spec_command_frame_data(bytes@)
                &&& (if spec_command_has_mac(m.command_type) {
                    &&& m.session_id == Some(SessionId(bytes@[3]))
                    &&& m.mac matches Some(t) && t@ == bytes@.subrange(
                        bytes@.len() - 8,
                        bytes@.len() as int,
                    )
                } else {
                    m.session_id is None && m.mac is None
                })
                &&& m.wf()
            },
            r matches Err(e) ==> e.kind == SessionErrorKind::ProtocolError,
    {
        let n = bytes.len();
        if n < 3 {
            return Err(Error::new(SessionErrorKind::ProtocolError, None));
        }
        let command_type = match CommandCode::from_u8(bytes[0]) {
            Some(code) => code,
            None => {
                return Err(Error::new(SessionErrorKind::ProtocolError, None));
            },
        };
        let length = crate::bytes::read_be16(bytes[1], bytes[2]) as usize;
        if length + 3 != n {
            return Err(Error::new(SessionErrorKind::ProtocolError, None));
        }
        if command_has_mac(command_type) {
            if n < 4 {
                return Err(Error::new(SessionErrorKind::ProtocolError, None));
            }
            let session_id = match SessionId::new(bytes[3]) {
                Ok(id) => id,
                Err(e) => {
                    return Err(e);
                },
            };
            if n - 4 < MAC_SIZE {
                return Err(Error::new(SessionErrorKind::ProtocolError, None));
            }
            let data = copy_range(bytes.as_slice(), 4, n - MAC_SIZE);
            if data.len() > MAX_MSG_SIZE {
                return Err(Error::new(SessionErrorKind::ProtocolError, None));
            }
            let mac = Mac::from_slice(&bytes.as_slice()[n - MAC_SIZE..n]);
            Ok(Self { command_type, session_id: Some(session_id), data, mac: Some(mac) })
        } else {
            let data = copy_range(bytes.as_slice(), 3, n);
            if data.len() > MAX_MSG_SIZE {
                return Err(Error::new(SessionErrorKind::ProtocolError, None));
            }
            Ok(Self { command_type, session_id: None, data, mac: None })
        }
    }
}

/// Is this byte sequence a well-formed command frame?
pub open spec fn spec_command_frame_ok(b: Seq<u8>) -> bool {
    &&& b.len() >= 3
    &&& CommandCode::spec_from_u8(b[0]) is Some
    &&& b.len() == 3 + spec_read_be16(b[1], b[2])
    &&& (if spec_command_has_mac(CommandCode::spec_from_u8(b[0])->0) {
        &&& b.len() >= 4
        &&& b[3] < MAX_SESSION_COUNT
        &&& b.len() >= 4 + MAC_SIZE
        &&& b.len() - 4 - MAC_SIZE <= MAX_MSG_SIZE
    } else {
        b.len() - 3 <= MAX_MSG_SIZE
    })
}

/// The payload carried by a well-formed command frame.
pub open spec fn spec_command_frame_data(b: Seq<u8>) -> Seq<u8> {
    if spec_command_has_mac(CommandCode::spec_from_u8(b[0])->0) {
        b.subrange(4, b.len() - MAC_SIZE)
    } else {
        b.subrange(3, b.len() as int)
    }
}

/// A command message serializes to a well-formed frame, and parsing that
/// frame recovers the command's code, session ID, payload, and MAC exactly.
pub proof fn lemma_command_round_trip(m: CommandMessage)
    requires
        m.wf(),
    ensures
        spec_command_frame_ok(m.spec_serialized()),
        CommandCode::spec_from_u8(m.spec_serialized()[0]) == Some(m.command_type),
        spec_command_frame_data(m.spec_serialized()) == m.data@,
        spec_command_has_mac(m.command_type) ==> {
            &&& m.session_id matches Some(id) && id.0 == m.spec_serialized()[3]
            &&& m.mac matches Some(t) && t@ == m.spec_serialized().subrange(
                m.spec_serialized().len() - 8,
                m.spec_serialized().len() as int,
            )
        },
{
    let b = m.spec_serialized();
    crate::codes::lemma_command_code_roundtrip(m.command_type);
    crate::bytes::lemma_be16_roundtrip(m.spec_len() as u16);
    assert(b[0] == m.command_type.spec_to_u8());
    assert(b[1] == spec_be16(m.spec_len() as u16)[0]);
    assert(b[2] == spec_be16(m.spec_len() as u16)[1]);
    assert(b.len() == 3 + m.spec_len());
    if spec_command_has_mac(m.command_type) {
        assert(b[3] == (m.session_id->0).0);
        assert(spec_command_frame_data(b) =~= m.data@);
        assert(b.subrange(b.len() - 8, b.len() as int) =~= m.mac->0@);
    } else {
        assert(spec_command_frame_data(b) =~= m.data@);
    }
}

/// A response sent from the device back to the host.
#[derive(Debug)]
pub struct ResponseMessage {
    /// Success (for a given command type) or an error type.
    pub code: ResponseCode,
    /// Session ID for this response.
    pub session_id: Option<SessionId>,
    /// Response data field.
    pub data: Vec<u8>,
    /// Optional message authentication code (MAC).
    pub mac: Option<Mac>,
}

impl ResponseMessage {
    /// Length of the serialized response, sans code and length field.
    pub open spec fn spec_len(&self) -> int {
        self.data@.len() + (if self.session_id is Some {
            1int
        } else {
            0int
        }) + (if self.mac is Some {
            MAC_SIZE as int
        } else {
            0int
        })
    }

    /// Well-formedness: the payload is bounded, the optional fields have
    /// their proper lengths, and their presence matches the response code.
    pub open spec fn wf(&self) -> bool {
        &&& self.data@.len() <= MAX_MSG_SIZE
        &&& (self.session_id matches Some(id) ==> id.wf())
        &&& (self.mac matches Some(m) ==> m.wf())
        &&& (self.session_id is Some <==> spec_has_session_id(self.code))
        &&& (self.mac is Some <==> spec_has_rmac(self.code))
    }

    /// The serialized form: code, big-endian length, then optional session
    /// ID, payload, and optional MAC.
    pub open spec fn spec_serialized(&self) -> Seq<u8> {
        seq![self.code.spec_to_u8()] + spec_be16(self.spec_len() as u16)
            + spec_opt_session_id_bytes(self.session_id) + self.data@ + spec_opt_mac_bytes(
            self.mac,
        )
    }

    /// Create a new response without an associated session.
    pub fn new(code: ResponseCode, response_data: Vec<u8>) -> (r: ResponseMessage)
        ensures
            r.code == code,
            r.session_id is None,
            r.data@ == response_data@,
            r.mac is None,
    {
        ResponseMessage { code, session_id: None, data: response_data, mac: None }
    }

    /// Create a new response message with a session ID and MAC.
    pub fn new_with_mac(
        code: ResponseCode,
        session_id: SessionId,
        response_data: Vec<u8>,
        mac: Mac,
    ) -> (r: Self)
        ensures
            r.code == code,
            r.session_id == Some(session_id),
            r.data@ == response_data@,
            r.mac matches Some(t) && t@ == mac@,
    {
        Self { code, session_id: Some(session_id), data: response_data, mac: Some(mac) }
    }

    /// Create a successful response for the given command type.
    pub fn success(command_type: CommandCode, response_data: Vec<u8>) -> (r: ResponseMessage)
        ensures
            r.code == ResponseCode::Success(command_type),
            r.session_id is None,
            r.data@ == response_data@,
            r.mac is None,
    {
        Self::new(ResponseCode::Success(command_type), response_data)
    }

    /// Did an error occur?
    pub fn is_err(&self) -> (r: bool)
        ensures
            r == !(self.code is Success),
    {
        match self.code {
            ResponseCode::Success(_) => false,
            _ => true,
        }
    }

    /// Get the command being responded to, when the response is a success.
    pub fn command(&self) -> (r: Option<CommandCode>)
        ensures
            match self.code {
                ResponseCode::Success(command_type) => r == Some(command_type),
                _ => r is None,
            },
    {
        match self.code {
            ResponseCode::Success(command_type) => Some(command_type),
            _ => None,
        }
    }

    /// Calculate the length of the serialized response, sans code and length
    /// field.
    pub fn len(&self) -> (r: usize)
        requires
            self.spec_len() <= usize::MAX,
        ensures
            r == self.spec_len(),
    {
        let mut result = self.data.len();
        if self.session_id.is_some() {
            result = result + 1;
        }
        if self.mac.is_some() {
            result = result + MAC_SIZE;
        }
        result
    }

    /// Serialize this response, consuming it and producing the wire bytes.
    pub fn into_vec(self) -> (r: Vec<u8>)
        requires
            self.spec_len() <= u16::MAX,
        ensures
            r@ == self.spec_serialized(),
    {
        let mut result: Vec<u8> = Vec::new();
        result.push(self.code.to_u8());
        let len = self.len();
        write_be16(&mut result, len as u16);
        match &self.session_id {
            Some(id) => result.push(id.to_u8()),
            None => {},
        }
        result.extend_from_slice(self.data.as_slice());
        match &self.mac {
            Some(m) => result.extend_from_slice(m.as_slice()),
            None => {},
        }
        proof {
            assert(result@ =~= self.spec_serialized());
        }
        result
    }

    /// Parse a response into a response struct, taking ownership of the
    /// vector.
    pub fn parse(bytes: Vec<u8>) -> (r: Result<Self, SessionError>)
        ensures
            r is Ok <==> spec_response_frame_ok(bytes@),
            r matches Ok(m) ==> {
                &&& m.code == ResponseCode::spec_from_u8(bytes@[0])->0
                &&& m.data@ == spec_response_frame_data(bytes@)
                &&& (if spec_has_session_id(m.code) {
                    m.session_id == Some(SessionId(bytes@[3]))
                } else {
                    m.session_id is None
                })
                &&& (if spec_has_rmac(m.code) {
                    m.mac matches Some(t) && t@ == bytes@.subrange(
                        bytes@.len() - 8,
                        bytes@.len() as int,
                    )
                } else {
                    m.mac is None
                })
                &&& m.wf()
            },
            r matches Err(e) ==> e.kind == SessionErrorKind::ProtocolError,
    {
        let n = bytes.len();
        if n < 3 {
            return Err(Error::new(SessionErrorKind::ProtocolError, None));
        }
        let code = match ResponseCode::from_u8(bytes[0]) {
            Some(code) => code,
            None => {
                return Err(Error::new(SessionErrorKind::ProtocolError, None));
            },
        };
        let length = crate::bytes::read_be16(bytes[1], bytes[2]) as usize;
        if length + 3 != n {
            return Err(Error::new(SessionErrorKind::ProtocolError, None));
        }
        let mut pos: usize = 3;
        let session_id = if has_session_id(code) {
            if n < 4 {
                return Err(Error::new(SessionErrorKind::ProtocolError, None));
            }
            let id = match SessionId::new(bytes[3]) {
                Ok(id) => id,
                Err(e) => {
                    return Err(e);
                },
            };
            pos = 4;
            Some(id)
        } else {
            None
        };
        let mac_len: usize = if has_rmac(code) {
            MAC_SIZE
        } else {
            0
        };
        if n - pos < mac_len {
            return Err(Error::new(SessionErrorKind::ProtocolError, None));
        }
        let data = copy_range(bytes.as_slice(), pos, n - mac_len);
        if data.len() > MAX_MSG_SIZE {
            return Err(Error::new(SessionErrorKind::ProtocolError, None));
        }
        let mac = if has_rmac(code) {
            Some(Mac::from_slice(&bytes.as_slice()[n - MAC_SIZE..n]))
        } else {
            None
        };
        Ok(Self { code, session_id, data, mac })
    }
}

/// Is this byte sequence a well-formed response frame?
pub open spec fn spec_response_frame_ok(b: Seq<u8>) -> bool {
    &&& b.len() >= 3
    &&& ResponseCode::spec_from_u8(b[0]) is Some
    &&& b.len() == 3 + spec_read_be16(b[1], b[2])
    &&& {
        let code = ResponseCode::spec_from_u8(b[0])->0;
        let sid_len: int = if spec_has_session_id(code) {
            1
        } else {
            0
        };
        let mac_len: int = if spec_has_rmac(code) {
            MAC_SIZE as int
        } else {
            0
        };
        &&& (spec_has_session_id(code) ==> b.len() >= 4 && b[3] < MAX_SESSION_COUNT)
        &&& b.len() >= 3 + sid_len + mac_len
        &&& b.len() - 3 - sid_len - mac_len <= MAX_MSG_SIZE
    }
}

/// The payload carried by a well-formed response frame.
pub open spec fn spec_response_frame_data(b: Seq<u8>) -> Seq<u8> {
    let code = ResponseCode::spec_from_u8(b[0])->0;
    let sid_len: int = if spec_has_session_id(code) {
        1
    } else {
        0
    };
    let mac_len: int = if spec_has_rmac(code) {
        MAC_SIZE as int
    } else {
        0
    };
    b.subrange(3 + sid_len, b.len() - mac_len)
}

/// A response message serializes to a well-formed frame, and parsing that
/// frame recovers the response's code, session ID, payload, and MAC exactly.
pub proof fn lemma_response_round_trip(m: ResponseMessage)
    requires
        m.wf(),
    ensures
        spec_response_frame_ok(m.spec_serialized()),
        ResponseCode::spec_from_u8(m.spec_serialized()[0]) == Some(m.code),
        spec_response_frame_data(m.spec_serialized()) == m.data@,
        spec_has_session_id(m.code) ==> (m.session_id matches Some(id) && id.0
            == m.spec_serialized()[3]),
        spec_has_rmac(m.code) ==> (m.mac matches Some(t) && t@ == m.spec_serialized().subrange(
            m.spec_serialized().len() - 8,
            m.spec_serialized().len() as int,
        )),
{
    let b = m.spec_serialized();
    crate::codes::lemma_response_code_roundtrip(m.code);
    crate::bytes::lemma_be16_roundtrip(m.spec_len() as u16);
    assert(b[0] == m.code.spec_to_u8());
    assert(b[1] == spec_be16(m.spec_len() as u16)[0]);
    assert(b[2] == spec_be16(m.spec_len() as u16)[1]);
    assert(b.len() == 3 + m.spec_len());
    if spec_has_session_id(m.code) {
        assert(b[3] == (m.session_id->0).0);
    }
    assert(spec_response_frame_data(b) =~= m.data@);
    if spec_has_rmac(m.code) {
        assert(b.subrange(b.len() - 8, b.len() as int) =~= m.mac->0@);
    }
}

} // verus!
