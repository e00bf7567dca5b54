//! Error types: a generic error value carrying a kind and an optional
//! description, the device error kinds, and the per-layer error taxonomies
//! for secure-channel sessions, clients, and connections.

use vstd::prelude::*;
use vstd::string::StringExecFns;

use crate::codes::ResponseCode;

verus! {

/// An error value: a kind tag plus an optional human-readable description.
#[derive(Debug)]
pub struct Error<T> {
    /// The kind of error that occurred.
    pub kind: T,
    /// Optional description of the error.
    pub description: Option<String>,
}

impl<T: Copy> Error<T> {
    /// Create a new error from its kind and an optional description.
    pub fn new(kind: T, description: Option<String>) -> (r: Self)
        ensures
            r.kind == kind,
            r.description == description,
    {
        Self { kind, description }
    }

    /// Obtain the error's kind.
    pub fn kind(&self) -> (r: T)
        ensures
            r == self.kind,
    {
        self.kind
    }
}

/// Errors which originate in the device.
pub type HsmError = Error<HsmErrorKind>;

/// Errors raised by the secure-channel session layer.
pub type SessionError = Error<SessionErrorKind>;

/// Errors surfaced to users of the client.
pub type ClientError = Error<ClientErrorKind>;

/// Errors raised by the transport connection.
pub type ConnectionError = Error<ConnectionErrorKind>;

/// Kinds of errors which originate in the device, carried as a one-byte tag
/// in the payload of a device error response.
#[derive(Copy, Clone, Eq, PartialEq, Structural, Debug, Hash)]
pub enum HsmErrorKind {
    /// Unknown device error code.
    Unknown {
        /// The unrecognized tag byte.
        code: u8,
    },
    /// Invalid command.
    CommandInvalid,
    /// Invalid data.
    DataInvalid,
    /// Invalid session.
    SessionInvalid,
    /// Authentication failure.
    AuthFail,
    /// Sessions full (the device has a maximum of 16).
    SessionsFull,
    /// Session failed.
    SessionFailed,
    /// Storage failed.
    StorageFailed,
    /// Wrong length.
    WrongLength,
    /// Invalid permissions.
    PermissionInvalid,
    /// Audit log full.
    LogFull,
    /// Object not found.
    ObjectNotFound,
    /// ID illegal.
    IDIllegal,
    /// Invalid OTP.
    InvalidOTP,
    /// Demo mode.
    DemoMode,
    /// Command unexecuted.
    CmdUnexecuted,
    /// Generic error.
    GenericError,
    /// Object already exists.
    ObjectExists,
}

impl HsmErrorKind {
    /// The device error kind denoted by a payload tag byte; unrecognized
    /// bytes are kept as `Unknown`.
    pub open spec fn spec_from_u8(tag: u8) -> HsmErrorKind {
        match tag {
            0x01 => HsmErrorKind::CommandInvalid,
            0x02 => HsmErrorKind::DataInvalid,
            0x03 => HsmErrorKind::SessionInvalid,
            0x04 => HsmErrorKind::AuthFail,
            0x05 => HsmErrorKind::SessionsFull,
            0x06 => HsmErrorKind::SessionFailed,
            0x07 => HsmErrorKind::StorageFailed,
            0x08 => HsmErrorKind::WrongLength,
            0x09 => HsmErrorKind::PermissionInvalid,
            0x0a => HsmErrorKind::LogFull,
            0x0b => HsmErrorKind::ObjectNotFound,
            0x0c => HsmErrorKind::IDIllegal,
            0x0d => HsmErrorKind::InvalidOTP,
            0x0e => HsmErrorKind::DemoMode,
            0x0f => HsmErrorKind::CmdUnexecuted,
            0x10 => HsmErrorKind::GenericError,
            0x11 => HsmErrorKind::ObjectExists,
            _ => HsmErrorKind::Unknown { code: tag },
        }
    }

    /// The payload tag byte denoting this device error kind.
    pub open spec fn spec_to_u8(self) -> u8 {
        match self {
            HsmErrorKind::Unknown { code } => code,
            HsmErrorKind::CommandInvalid => 0x01,
            HsmErrorKind::DataInvalid => 0x02,
            HsmErrorKind::SessionInvalid => 0x03,
            HsmErrorKind::AuthFail => 0x04,
            HsmErrorKind::SessionsFull => 0x05,
            HsmErrorKind::SessionFailed => 0x06,
            HsmErrorKind::StorageFailed => 0x07,
            HsmErrorKind::WrongLength => 0x08,
            HsmErrorKind::PermissionInvalid => 0x09,
            HsmErrorKind::LogFull => 0x0a,
            HsmErrorKind::ObjectNotFound => 0x0b,
            HsmErrorKind::IDIllegal => 0x0c,
            HsmErrorKind::InvalidOTP => 0x0d,
            HsmErrorKind::DemoMode => 0x0e,
            HsmErrorKind::CmdUnexecuted => 0x0f,
            HsmErrorKind::GenericError => 0x10,
            HsmErrorKind::ObjectExists => 0x11,
        }
    }

    /// Create an `HsmErrorKind` from the given byte tag.
    pub fn from_u8(tag: u8) -> (r: HsmErrorKind)
        ensures
            r == Self::spec_from_u8(tag),
    {
        match tag {
            0x01 => HsmErrorKind::CommandInvalid,
            0x02 => HsmErrorKind::DataInvalid,
            0x03 => HsmErrorKind::SessionInvalid,
            0x04 => HsmErrorKind::AuthFail,
            0x05 => HsmErrorKind::SessionsFull,
            0x06 => HsmErrorKind::SessionFailed,
            0x07 => HsmErrorKind::StorageFailed,
            0x08 => HsmErrorKind::WrongLength,
            0x09 => HsmErrorKind::PermissionInvalid,
            0x0a => HsmErrorKind::LogFull,
            0x0b => HsmErrorKind::ObjectNotFound,
            0x0c => HsmErrorKind::IDIllegal,
            0x0d => HsmErrorKind::InvalidOTP,
            0x0e => HsmErrorKind::DemoMode,
            0x0f => HsmErrorKind::CmdUnexecuted,
            0x10 => HsmErrorKind::GenericError,
            0x11 => HsmErrorKind::ObjectExists,
            _ => HsmErrorKind::Unknown { code: tag },
        }
    }

    /// Serialize this `HsmErrorKind` as a byte tag.
    pub fn to_u8(self) -> (r: u8)
        ensures
            r == self.spec_to_u8(),
    {
        match self {
            HsmErrorKind::Unknown { code } => code,
            HsmErrorKind::CommandInvalid => 0x01,
            HsmErrorKind::DataInvalid => 0x02,
            HsmErrorKind::SessionInvalid => 0x03,
            HsmErrorKind::AuthFail => 0x04,
            HsmErrorKind::SessionsFull => 0x05,
            HsmErrorKind::SessionFailed => 0x06,
            HsmErrorKind::StorageFailed => 0x07,
            HsmErrorKind::WrongLength => 0x08,
            HsmErrorKind::PermissionInvalid => 0x09,
            HsmErrorKind::LogFull => 0x0a,
            HsmErrorKind::ObjectNotFound => 0x0b,
            HsmErrorKind::IDIllegal => 0x0c,
            HsmErrorKind::InvalidOTP => 0x0d,
            HsmErrorKind::DemoMode => 0x0e,
            HsmErrorKind::CmdUnexecuted => 0x0f,
            HsmErrorKind::GenericError => 0x10,
            HsmErrorKind::ObjectExists => 0x11,
        }
    }

    /// The device error kind that corresponds to a device error response
    /// code, if the code denotes one.
    pub open spec fn spec_from_response_code(code: ResponseCode) -> Option<HsmErrorKind> {
        match code {
            ResponseCode::DeviceInvalidCommand => Some(HsmErrorKind::CommandInvalid),
            ResponseCode::DeviceInvalidData => Some(HsmErrorKind::DataInvalid),
            ResponseCode::DeviceInvalidSession => Some(HsmErrorKind::SessionInvalid),
            ResponseCode::DeviceAuthFail => Some(HsmErrorKind::AuthFail),
            ResponseCode::DeviceSessionsFull => Some(HsmErrorKind::SessionsFull),
            ResponseCode::DeviceSessionFailed => Some(HsmErrorKind::SessionFailed),
            ResponseCode::DeviceStorageFailed => Some(HsmErrorKind::StorageFailed),
            ResponseCode::DeviceWrongLength => Some(HsmErrorKind::WrongLength),
            ResponseCode::DeviceInvalidPermission => Some(HsmErrorKind::PermissionInvalid),
            ResponseCode::DeviceLogFull => Some(HsmErrorKind::LogFull),
            ResponseCode::DeviceObjNotFound => Some(HsmErrorKind::ObjectNotFound),
            ResponseCode::DeviceIDIllegal => Some(HsmErrorKind::IDIllegal),
            ResponseCode::DeviceInvalidOTP => Some(HsmErrorKind::InvalidOTP),
            ResponseCode::DeviceDemoMode => Some(HsmErrorKind::DemoMode),
            ResponseCode::DeviceCmdUnexecuted => Some(HsmErrorKind::CmdUnexecuted),
            ResponseCode::GenericError => Some(HsmErrorKind::GenericError),
            ResponseCode::DeviceObjectExists => Some(HsmErrorKind::ObjectExists),
            _ => None,
        }
    }

    /// Create an `HsmErrorKind` from the given `ResponseCode` (if applicable).
    pub fn from_response_code(code: ResponseCode) -> (r: Option<HsmErrorKind>)
        ensures
            r == Self::spec_from_response_code(code),
    {
        match code {
            ResponseCode::DeviceInvalidCommand => Some(HsmErrorKind::CommandInvalid),
            ResponseCode::DeviceInvalidData => Some(HsmErrorKind::DataInvalid),
            ResponseCode::DeviceInvalidSession => Some(HsmErrorKind::SessionInvalid),
            ResponseCode::DeviceAuthFail => Some(HsmErrorKind::AuthFail),
            ResponseCode::DeviceSessionsFull => Some(HsmErrorKind::SessionsFull),
            ResponseCode::DeviceSessionFailed => Some(HsmErrorKind::SessionFailed),
            ResponseCode::DeviceStorageFailed => Some(HsmErrorKind::StorageFailed),
            ResponseCode::DeviceWrongLength => Some(HsmErrorKind::WrongLength),
            ResponseCode::DeviceInvalidPermission => Some(HsmErrorKind::PermissionInvalid),
            ResponseCode::DeviceLogFull => Some(HsmErrorKind::LogFull),
            ResponseCode::DeviceObjNotFound => Some(HsmErrorKind::ObjectNotFound),
            ResponseCode::DeviceIDIllegal => Some(HsmErrorKind::IDIllegal),
            ResponseCode::DeviceInvalidOTP => Some(HsmErrorKind::InvalidOTP),
            ResponseCode::DeviceDemoMode => Some(HsmErrorKind::DemoMode),
            ResponseCode::DeviceCmdUnexecuted => Some(HsmErrorKind::CmdUnexecuted),
            ResponseCode::GenericError => Some(HsmErrorKind::GenericError),
            ResponseCode::DeviceObjectExists => Some(HsmErrorKind::ObjectExists),
            _ => None,
        }
    }

    /// Create an `HsmErrorKind` from the given response message, when it is
    /// an error response whose single payload byte carries the error tag.
    pub fn from_response_message(response: &crate::message::ResponseMessage) -> (r: Option<
        HsmErrorKind,
    >)
        ensures
            r == if !(response.code is Success) && response.data@.len() == 1 {
                Some(HsmErrorKind::spec_from_u8(response.data@[0]))
            } else {
                None::<HsmErrorKind>
            },
    {
        if response.is_err() && response.data.len() == 1 {
            Some(HsmErrorKind::from_u8(response.data[0]))
        } else {
            None
        }
    }
}

/// Kinds of errors raised by the secure-channel session layer.
#[derive(Copy, Clone, Eq, PartialEq, Structural, Debug)]
pub enum SessionErrorKind {
    /// Couldn't authenticate the session.
    AuthFail,
    /// The session is closed.
    ClosedSessionError,
    /// The per-session command limit was reached.
    CommandLimitExceeded,
    /// Couldn't create the session.
    CreateFailed,
    /// The device returned an error response.
    DeviceError {
        /// Device error kind.
        kind: HsmErrorKind,
    },
    /// The response carried an unexpected session ID.
    MismatchError,
    /// A framing, length, or parse failure, or an unexpected payload.
    ProtocolError,
    /// An error response that cannot be further specified.
    ResponseError,
    /// A MAC or cryptogram comparison failed.
    VerifyFailed,
}

impl SessionErrorKind {
    /// The short description of this error kind.
    pub open spec fn spec_name(self) -> Seq<char> {
        match self {
            SessionErrorKind::AuthFail => "authentication failed"@,
            SessionErrorKind::ClosedSessionError => "session closed"@,
            SessionErrorKind::CommandLimitExceeded => "command limit exceeded"@,
            SessionErrorKind::CreateFailed => "couldn't create session"@,
            SessionErrorKind::DeviceError { kind } => "HSM error"@,
            SessionErrorKind::MismatchError => "mismatch error"@,
            SessionErrorKind::ProtocolError => "protocol error"@,
            SessionErrorKind::ResponseError => "bad response"@,
            SessionErrorKind::VerifyFailed => "verification failed"@,
        }
    }

    /// The short description of this error kind.
    pub fn name(self) -> (r: &'static str)
        ensures
            r@ == self.spec_name(),
    {
        match self {
            SessionErrorKind::AuthFail => "authentication failed",
            SessionErrorKind::ClosedSessionError => "session closed",
            SessionErrorKind::CommandLimitExceeded => "command limit exceeded",
            SessionErrorKind::CreateFailed => "couldn't create session",
            SessionErrorKind::DeviceError { kind: _ } => "HSM error",
            SessionErrorKind::MismatchError => "mismatch error",
            SessionErrorKind::ProtocolError => "protocol error",
            SessionErrorKind::ResponseError => "bad response",
            SessionErrorKind::VerifyFailed => "verification failed",
        }
    }
}

impl Error<SessionErrorKind> {
    /// The error rendered as text: the kind's description, followed by the
    /// stored description if there is one.
    pub fn message(&self) -> (r: String)
        ensures
            match self.description {
                Some(d) => r@ == self.kind.spec_name() + ": "@ + d@,
                None => r@ == self.kind.spec_name(),
            },
    {
        let mut m = String::from_str(self.kind.name());
        match &self.description {
            Some(d) => {
                m.append(": ");
                m.append(d.as_str());
            },
            None => {},
        }
        m
    }
}

/// Kinds of errors surfaced to users of the client.
#[derive(Copy, Clone, Eq, PartialEq, Structural, Debug)]
#[allow(inconsistent_fields)]
pub enum ClientErrorKind {
    /// Couldn't authenticate the session.
    AuthFail,
    /// The session is closed.
    ClosedSessionError,
    /// An error with the connection to the device.
    ConnectionError {
        /// Connection error kind.
        kind: ConnectionErrorKind,
    },
    /// Couldn't create the session.
    CreateFailed,
    /// An error originating in the device.
    DeviceError {
        /// Device error kind.
        kind: HsmErrorKind,
    },
    /// Protocol error occurred.
    ProtocolError,
    /// An error response that cannot be further specified.
    ResponseError,
}

/// Kinds of errors raised by the transport connection.
#[derive(Copy, Clone, Eq, PartialEq, Structural, Debug)]
pub enum ConnectionErrorKind {
    /// The address provided was not valid.
    AddrInvalid,
    /// Access denied.
    AccessDenied,
    /// The device is busy (in use by another client or process).
    DeviceBusyError,
    /// Couldn't connect to the device.
    ConnectionFailed,
    /// Input/output error.
    IoError,
    /// Error making the request.
    RequestError,
    /// The connector sent a bad response.
    ResponseError,
    /// A USB operation failed.
    UsbError,
}

/// The client error kind that a session error kind maps to.
pub open spec fn spec_client_kind_of_session_kind(kind: SessionErrorKind) -> ClientErrorKind {
    match kind {
        SessionErrorKind::AuthFail => ClientErrorKind::AuthFail,
        SessionErrorKind::ClosedSessionError => ClientErrorKind::ClosedSessionError,
        SessionErrorKind::CreateFailed => ClientErrorKind::CreateFailed,
        SessionErrorKind::DeviceError { kind } => ClientErrorKind::DeviceError { kind },
        SessionErrorKind::ProtocolError => ClientErrorKind::ProtocolError,
        SessionErrorKind::CommandLimitExceeded => ClientErrorKind::ProtocolError,
        SessionErrorKind::MismatchError => ClientErrorKind::ProtocolError,
        SessionErrorKind::VerifyFailed => ClientErrorKind::ProtocolError,
        SessionErrorKind::ResponseError => ClientErrorKind::ResponseError,
    }
}

impl vstd::std_specs::convert::FromSpecImpl<Error<SessionErrorKind>> for Error<ClientErrorKind> {
    open spec fn obeys_from_spec() -> bool {
        true
    }

    open spec fn from_spec(err: Error<SessionErrorKind>) -> Self {
        (Error {
            kind: spec_client_kind_of_session_kind(err.kind),
            description: err.description,
        })
    }
}

impl From<Error<SessionErrorKind>> for Error<ClientErrorKind> {
    /// Convert a session error to the client-facing taxonomy, keeping its
    /// description.
    fn from(err: Error<SessionErrorKind>) -> (r: Self) {
        let kind = match err.kind {
            SessionErrorKind::AuthFail => ClientErrorKind::AuthFail,
            SessionErrorKind::ClosedSessionError => ClientErrorKind::ClosedSessionError,
            SessionErrorKind::CreateFailed => ClientErrorKind::CreateFailed,
            SessionErrorKind::DeviceError { kind } => ClientErrorKind::DeviceError { kind },
            SessionErrorKind::ProtocolError => ClientErrorKind::ProtocolError,
            SessionErrorKind::CommandLimitExceeded => ClientErrorKind::ProtocolError,
            SessionErrorKind::MismatchError => ClientErrorKind::ProtocolError,
            SessionErrorKind::VerifyFailed => ClientErrorKind::ProtocolError,
            SessionErrorKind::ResponseError => ClientErrorKind::ResponseError,
        };
        Error { kind, description: err.description }
    }
}

} // verus!
