//! Command and response codes: the closed sets of byte tags that identify
//! commands sent to the device and the responses that come back.
//!
//! A response code is either `Success(cmd)`, encoded as the command byte with
//! the top bit set, or one of the device error codes below `0x80`.

use vstd::prelude::*;

verus! {

/// Types of command supported by the device, identified by one byte on the
/// wire.
#[derive(Clone, Copy, Debug, PartialEq, Eq, Structural, Hash)]
pub enum CommandCode {
    Echo,
    CreateSession,
    AuthSession,
    SessionMessage,
    DeviceInfo,
    BSL,
    Reset,
    CloseSession,
    StorageStatus,
    PutOpaqueObject,
    GetOpaqueObject,
    PutAuthKey,
    PutAsymmetricKey,
    GenAsymmetricKey,
    SignDataPKCS1,
    ListObjects,
    DecryptPKCS1,
    ExportWrapped,
    ImportWrapped,
    PutWrapKey,
    GetLogs,
    GetObjectInfo,
    PutOption,
    GetOption,
    GetPseudoRandom,
    PutHMACKey,
    HMACData,
    GetPubKey,
    SignDataPSS,
    SignDataECDSA,
    DecryptECDH,
    DeleteObject,
    DecryptOAEP,
    GenerateHMACKey,
    GenerateWrapKey,
    VerifyHMAC,
    SSHCertify,
    PutTemplate,
    GetTemplate,
    DecryptOTP,
    CreateOTPAEAD,
    RandomOTPAEAD,
    RewrapOTPAEAD,
    AttestAsymmetric,
    PutOTPAEAD,
    GenerateOTPAEAD,
    SetLogIndex,
    WrapData,
    UnwrapData,
    SignDataEdDSA,
    Blink,
}

impl CommandCode {
    /// The byte that identifies this command on the wire.
    pub open spec fn spec_to_u8(self) -> u8 {
        match self {
            CommandCode::Echo => 0x01,
            CommandCode::CreateSession => 0x03,
            CommandCode::AuthSession => 0x04,
            CommandCode::SessionMessage => 0x05,
            CommandCode::DeviceInfo => 0x06,
            CommandCode::BSL => 0x07,
            CommandCode::Reset => 0x08,
            CommandCode::CloseSession => 0x40,
            CommandCode::StorageStatus => 0x41,
            CommandCode::PutOpaqueObject => 0x42,
            CommandCode::GetOpaqueObject => 0x43,
            CommandCode::PutAuthKey => 0x44,
            CommandCode::PutAsymmetricKey => 0x45,
            CommandCode::GenAsymmetricKey => 0x46,
            CommandCode::SignDataPKCS1 => 0x47,
            CommandCode::ListObjects => 0x48,
            CommandCode::DecryptPKCS1 => 0x49,
            CommandCode::ExportWrapped => 0x4a,
            CommandCode::ImportWrapped => 0x4b,
            CommandCode::PutWrapKey => 0x4c,
            CommandCode::GetLogs => 0x4d,
            CommandCode::GetObjectInfo => 0x4e,
            CommandCode::PutOption => 0x4f,
            CommandCode::GetOption => 0x50,
            CommandCode::GetPseudoRandom => 0x51,
            CommandCode::PutHMACKey => 0x52,
            CommandCode::HMACData => 0x53,
            CommandCode::GetPubKey => 0x54,
            CommandCode::SignDataPSS => 0x55,
            CommandCode::SignDataECDSA => 0x56,
            CommandCode::DecryptECDH => 0x57,
            CommandCode::DeleteObject => 0x58,
            CommandCode::DecryptOAEP => 0x59,
            CommandCode::GenerateHMACKey => 0x5a,
            CommandCode::GenerateWrapKey => 0x5b,
            CommandCode::VerifyHMAC => 0x5c,
            CommandCode::SSHCertify => 0x5d,
            CommandCode::PutTemplate => 0x5e,
            CommandCode::GetTemplate => 0x5f,
            CommandCode::DecryptOTP => 0x60,
            CommandCode::CreateOTPAEAD => 0x61,
            CommandCode::RandomOTPAEAD => 0x62,
            CommandCode::RewrapOTPAEAD => 0x63,
            CommandCode::AttestAsymmetric => 0x64,
            CommandCode::PutOTPAEAD => 0x65,
            CommandCode::GenerateOTPAEAD => 0x66,
            CommandCode::SetLogIndex => 0x67,
            CommandCode::WrapData => 0x68,
            CommandCode::UnwrapData => 0x69,
            CommandCode::SignDataEdDSA => 0x6a,
            CommandCode::Blink => 0x6b,
        }
    }

    /// The command identified by a byte, if the byte is a known command tag.
    pub open spec fn spec_from_u8(byte: u8) -> Option<CommandCode> {
        match byte {
            0x01 => Some(CommandCode::Echo),
            0x03 => Some(CommandCode::CreateSession),
            0x04 => Some(CommandCode::AuthSession),
            0x05 => Some(CommandCode::SessionMessage),
            0x06 => Some(CommandCode::DeviceInfo),
            0x07 => Some(CommandCode::BSL),
            0x08 => Some(CommandCode::Reset),
            0x40 => Some(CommandCode::CloseSession),
            0x41 => Some(CommandCode::StorageStatus),
            0x42 => Some(CommandCode::PutOpaqueObject),
            0x43 => Some(CommandCode::GetOpaqueObject),
            0x44 => Some(CommandCode::PutAuthKey),
            0x45 => Some(CommandCode::PutAsymmetricKey),
            0x46 => Some(CommandCode::GenAsymmetricKey),
            0x47 => Some(CommandCode::SignDataPKCS1),
            0x48 => Some(CommandCode::ListObjects),
            0x49 => Some(CommandCode::DecryptPKCS1),
            0x4a => Some(CommandCode::ExportWrapped),
            0x4b => Some(CommandCode::ImportWrapped),
            0x4c => Some(CommandCode::PutWrapKey),
            0x4d => Some(CommandCode::GetLogs),
            0x4e => Some(CommandCode::GetObjectInfo),
            0x4f => Some(CommandCode::PutOption),
            0x50 => Some(CommandCode::GetOption),
            0x51 => Some(CommandCode::GetPseudoRandom),
            0x52 => Some(CommandCode::PutHMACKey),
            0x53 => Some(CommandCode::HMACData),
            0x54 => Some(CommandCode::GetPubKey),
            0x55 => Some(CommandCode::SignDataPSS),
            0x56 => Some(CommandCode::SignDataECDSA),
            0x57 => Some(CommandCode::DecryptECDH),
            0x58 => Some(CommandCode::DeleteObject),
            0x59 => Some(CommandCode::DecryptOAEP),
            0x5a => Some(CommandCode::GenerateHMACKey),
            0x5b => Some(CommandCode::GenerateWrapKey),
            0x5c => Some(CommandCode::VerifyHMAC),
            0x5d => Some(CommandCode::SSHCertify),
            0x5e => Some(CommandCode::PutTemplate),
            0x5f => Some(CommandCode::GetTemplate),
            0x60 => Some(CommandCode::DecryptOTP),
            0x61 => Some(CommandCode::CreateOTPAEAD),
            0x62 => Some(CommandCode::RandomOTPAEAD),
            0x63 => Some(CommandCode::RewrapOTPAEAD),
            0x64 => Some(CommandCode::AttestAsymmetric),
            0x65 => Some(CommandCode::PutOTPAEAD),
            0x66 => Some(CommandCode::GenerateOTPAEAD),
            0x67 => Some(CommandCode::SetLogIndex),
            0x68 => Some(CommandCode::WrapData),
            0x69 => Some(CommandCode::UnwrapData),
            0x6a => Some(CommandCode::SignDataEdDSA),
            0x6b => Some(CommandCode::Blink),
            _ => None,
        }
    }

    /// Serialize this command code as a byte.
    pub fn to_u8(self) -> (r: u8)
        ensures
            r == self.spec_to_u8(),
    {
        match self {
            CommandCode::Echo => 0x01,
            CommandCode::CreateSession => 0x03,
            CommandCode::AuthSession => 0x04,
            CommandCode::SessionMessage => 0x05,
            CommandCode::DeviceInfo => 0x06,
            CommandCode::BSL => 0x07,
            CommandCode::Reset => 0x08,
            CommandCode::CloseSession => 0x40,
            CommandCode::StorageStatus => 0x41,
            CommandCode::PutOpaqueObject => 0x42,
            CommandCode::GetOpaqueObject => 0x43,
            CommandCode::PutAuthKey => 0x44,
            CommandCode::PutAsymmetricKey => 0x45,
            CommandCode::GenAsymmetricKey => 0x46,
            CommandCode::SignDataPKCS1 => 0x47,
            CommandCode::ListObjects => 0x48,
            CommandCode::DecryptPKCS1 => 0x49,
            CommandCode::ExportWrapped => 0x4a,
            CommandCode::ImportWrapped => 0x4b,
            CommandCode::PutWrapKey => 0x4c,
            CommandCode::GetLogs => 0x4d,
            CommandCode::GetObjectInfo => 0x4e,
            CommandCode::PutOption => 0x4f,
            CommandCode::GetOption => 0x50,
            CommandCode::GetPseudoRandom => 0x51,
            CommandCode::PutHMACKey => 0x52,
            CommandCode::HMACData => 0x53,
            CommandCode::GetPubKey => 0x54,
            CommandCode::SignDataPSS => 0x55,
            CommandCode::SignDataECDSA => 0x56,
            CommandCode::DecryptECDH => 0x57,
            CommandCode::DeleteObject => 0x58,
            CommandCode::DecryptOAEP => 0x59,
            CommandCode::GenerateHMACKey => 0x5a,
            CommandCode::GenerateWrapKey => 0x5b,
            CommandCode::VerifyHMAC => 0x5c,
            CommandCode::SSHCertify => 0x5d,
            CommandCode::PutTemplate => 0x5e,
            CommandCode::GetTemplate => 0x5f,
            CommandCode::DecryptOTP => 0x60,
            CommandCode::CreateOTPAEAD => 0x61,
            CommandCode::RandomOTPAEAD => 0x62,
            CommandCode::RewrapOTPAEAD => 0x63,
            CommandCode::AttestAsymmetric => 0x64,
            CommandCode::PutOTPAEAD => 0x65,
            CommandCode::GenerateOTPAEAD => 0x66,
            CommandCode::SetLogIndex => 0x67,
            CommandCode::WrapData => 0x68,
            CommandCode::UnwrapData => 0x69,
            CommandCode::SignDataEdDSA => 0x6a,
            CommandCode::Blink => 0x6b,
        }
    }

    /// Parse a command code from a byte, if it is a known tag.
    pub fn from_u8(byte: u8) -> (r: Option<CommandCode>)
        ensures
            r == Self::spec_from_u8(byte),
    {
        match byte {
            0x01 => Some(CommandCode::Echo),
            0x03 => Some(CommandCode::CreateSession),
            0x04 => Some(CommandCode::AuthSession),
            0x05 => Some(CommandCode::SessionMessage),
            0x06 => Some(CommandCode::DeviceInfo),
            0x07 => Some(CommandCode::BSL),
            0x08 => Some(CommandCode::Reset),
            0x40 => Some(CommandCode::CloseSession),
            0x41 => Some(CommandCode::StorageStatus),
            0x42 => Some(CommandCode::PutOpaqueObject),
            0x43 => Some(CommandCode::GetOpaqueObject),
            0x44 => Some(CommandCode::PutAuthKey),
            0x45 => Some(CommandCode::PutAsymmetricKey),
            0x46 => Some(CommandCode::GenAsymmetricKey),
            0x47 => Some(CommandCode::SignDataPKCS1),
            0x48 => Some(CommandCode::ListObjects),
            0x49 => Some(CommandCode::DecryptPKCS1),
            0x4a => Some(CommandCode::ExportWrapped),
            0x4b => Some(CommandCode::ImportWrapped),
            0x4c => Some(CommandCode::PutWrapKey),
            0x4d => Some(CommandCode::GetLogs),
            0x4e => Some(CommandCode::GetObjectInfo),
            0x4f => Some(CommandCode::PutOption),
            0x50 => Some(CommandCode::GetOption),
            0x51 => Some(CommandCode::GetPseudoRandom),
            0x52 => Some(CommandCode::PutHMACKey),
            0x53 => Some(CommandCode::HMACData),
            0x54 => Some(CommandCode::GetPubKey),
            0x55 => Some(CommandCode::SignDataPSS),
            0x56 => Some(CommandCode::SignDataECDSA),
            0x57 => Some(CommandCode::DecryptECDH),
            0x58 => Some(CommandCode::DeleteObject),
            0x59 => Some(CommandCode::DecryptOAEP),
            0x5a => Some(CommandCode::GenerateHMACKey),
            0x5b => Some(CommandCode::GenerateWrapKey),
            0x5c => Some(CommandCode::VerifyHMAC),
            0x5d => Some(CommandCode::SSHCertify),
            0x5e => Some(CommandCode::PutTemplate),
            0x5f => Some(CommandCode::GetTemplate),
            0x60 => Some(CommandCode::DecryptOTP),
            0x61 => Some(CommandCode::CreateOTPAEAD),
            0x62 => Some(CommandCode::RandomOTPAEAD),
            0x63 => Some(CommandCode::RewrapOTPAEAD),
            0x64 => Some(CommandCode::AttestAsymmetric),
            0x65 => Some(CommandCode::PutOTPAEAD),
            0x66 => Some(CommandCode::GenerateOTPAEAD),
            0x67 => Some(CommandCode::SetLogIndex),
            0x68 => Some(CommandCode::WrapData),
            0x69 => Some(CommandCode::UnwrapData),
            0x6a => Some(CommandCode::SignDataEdDSA),
            0x6b => Some(CommandCode::Blink),
            _ => None,
        }
    }
}

/// Decoding the byte of a command code yields the code back.
pub proof fn lemma_command_code_roundtrip(code: CommandCode)
    ensures
        CommandCode::spec_from_u8(code.spec_to_u8()) == Some(code),
{
}

/// Codes associated with responses from the device: success for a given
/// command, or one of the device error codes.
#[derive(Clone, Copy, Debug, PartialEq, Eq, Structural, Hash)]
pub enum ResponseCode {
    /// Successful response to the given command.
    Success(CommandCode),
    /// Device reports no error.
    DeviceOk,
    /// Invalid command.
    DeviceInvalidCommand,
    /// Invalid data.
    DeviceInvalidData,
    /// Invalid session.
    DeviceInvalidSession,
    /// Authentication failure.
    DeviceAuthFail,
    /// All sessions are in use.
    DeviceSessionsFull,
    /// Session failed.
    DeviceSessionFailed,
    /// Storage failure.
    DeviceStorageFailed,
    /// Incorrect length.
    DeviceWrongLength,
    /// Invalid permissions.
    DeviceInvalidPermission,
    /// Audit log is full.
    DeviceLogFull,
    /// Object was not found.
    DeviceObjNotFound,
    /// Illegal object ID.
    DeviceIDIllegal,
    /// Invalid one-time password.
    DeviceInvalidOTP,
    /// Device is in demo mode.
    DeviceDemoMode,
    /// Command was not executed.
    DeviceCmdUnexecuted,
    /// Object already exists.
    DeviceObjectExists,
    /// Generic device error.
    GenericError,
}

impl ResponseCode {
    /// The byte that identifies this response code on the wire: the command
    /// byte with the top bit set for success, a low byte for device errors.
    pub open spec fn spec_to_u8(self) -> u8 {
        match self {
            ResponseCode::Success(code) => (code.spec_to_u8() + 0x80) as u8,
            ResponseCode::DeviceOk => 0x00,
            ResponseCode::DeviceInvalidCommand => 0x01,
            ResponseCode::DeviceInvalidData => 0x02,
            ResponseCode::DeviceInvalidSession => 0x03,
            ResponseCode::DeviceAuthFail => 0x04,
            ResponseCode::DeviceSessionsFull => 0x05,
            ResponseCode::DeviceSessionFailed => 0x06,
            ResponseCode::DeviceStorageFailed => 0x07,
            ResponseCode::DeviceWrongLength => 0x08,
            ResponseCode::DeviceInvalidPermission => 0x09,
            ResponseCode::DeviceLogFull => 0x0a,
            ResponseCode::DeviceObjNotFound => 0x0b,
            ResponseCode::DeviceIDIllegal => 0x0c,
            ResponseCode::DeviceInvalidOTP => 0x0d,
            ResponseCode::DeviceDemoMode => 0x0e,
            ResponseCode::DeviceCmdUnexecuted => 0x0f,
            ResponseCode::DeviceObjectExists => 0x10,
            ResponseCode::GenericError => 0x7f,
        }
    }

    /// The response code identified by a byte, if the byte is a known tag.
    pub open spec fn spec_from_u8(byte: u8) -> Option<ResponseCode> {
        if byte >= 0x80 {
            match CommandCode::spec_from_u8((byte - 0x80) as u8) {
                Some(code) => Some(ResponseCode::Success(code)),
                None => None,
            }
        } else {
            match byte {
                0x00 => Some(ResponseCode::DeviceOk),
                0x01 => Some(ResponseCode::DeviceInvalidCommand),
                0x02 => Some(ResponseCode::DeviceInvalidData),
                0x03 => Some(ResponseCode::DeviceInvalidSession),
                0x04 => Some(ResponseCode::DeviceAuthFail),
                0x05 => Some(ResponseCode::DeviceSessionsFull),
                0x06 => Some(ResponseCode::DeviceSessionFailed),
                0x07 => Some(ResponseCode::DeviceStorageFailed),
                0x08 => Some(ResponseCode::DeviceWrongLength),
                0x09 => Some(ResponseCode::DeviceInvalidPermission),
                0x0a => Some(ResponseCode::DeviceLogFull),
                0x0b => Some(ResponseCode::DeviceObjNotFound),
                0x0c => Some(ResponseCode::DeviceIDIllegal),
                0x0d => Some(ResponseCode::DeviceInvalidOTP),
                0x0e => Some(ResponseCode::DeviceDemoMode),
                0x0f => Some(ResponseCode::DeviceCmdUnexecuted),
                0x10 => Some(ResponseCode::DeviceObjectExists),
                0x7f => Some(ResponseCode::GenericError),
                _ => None,
            }
        }
    }

    /// Serialize this response code as a byte.
    pub fn to_u8(self) -> (r: u8)
        ensures
            r == self.spec_to_u8(),
    {
        match self {
            ResponseCode::Success(code) => code.to_u8() + 0x80,
            ResponseCode::DeviceOk => 0x00,
            ResponseCode::DeviceInvalidCommand => 0x01,
            ResponseCode::DeviceInvalidData => 0x02,
            ResponseCode::DeviceInvalidSession => 0x03,
            ResponseCode::DeviceAuthFail => 0x04,
            ResponseCode::DeviceSessionsFull => 0x05,
            ResponseCode::DeviceSessionFailed => 0x06,
            ResponseCode::DeviceStorageFailed => 0x07,
            ResponseCode::DeviceWrongLength => 0x08,
            ResponseCode::DeviceInvalidPermission => 0x09,
            ResponseCode::DeviceLogFull => 0x0a,
            ResponseCode::DeviceObjNotFound => 0x0b,
            ResponseCode::DeviceIDIllegal => 0x0c,
            ResponseCode::DeviceInvalidOTP => 0x0d,
            ResponseCode::DeviceDemoMode => 0x0e,
            ResponseCode::DeviceCmdUnexecuted => 0x0f,
            ResponseCode::DeviceObjectExists => 0x10,
            ResponseCode::GenericError => 0x7f,
        }
    }

    /// Parse a response code from a byte, if it is a known tag.
    pub fn from_u8(byte: u8) -> (r: Option<ResponseCode>)
        ensures
            r == Self::spec_from_u8(byte),
    {
        if byte >= 0x80 {
            match CommandCode::from_u8(byte - 0x80) {
                Some(code) => Some(ResponseCode::Success(code)),
                None => None,
            }
        } else {
            match byte {
                0x00 => Some(ResponseCode::DeviceOk),
                0x01 => Some(ResponseCode::DeviceInvalidCommand),
                0x02 => Some(ResponseCode::DeviceInvalidData),
                0x03 => Some(ResponseCode::DeviceInvalidSession),
                0x04 => Some(ResponseCode::DeviceAuthFail),
                0x05 => Some(ResponseCode::DeviceSessionsFull),
                0x06 => Some(ResponseCode::DeviceSessionFailed),
                0x07 => Some(ResponseCode::DeviceStorageFailed),
                0x08 => Some(ResponseCode::DeviceWrongLength),
                0x09 => Some(ResponseCode::DeviceInvalidPermission),
                0x0a => Some(ResponseCode::DeviceLogFull),
                0x0b => Some(ResponseCode::DeviceObjNotFound),
                0x0c => Some(ResponseCode::DeviceIDIllegal),
                0x0d => Some(ResponseCode::DeviceInvalidOTP),
                0x0e => Some(ResponseCode::DeviceDemoMode),
                0x0f => Some(ResponseCode::DeviceCmdUnexecuted),
                0x10 => Some(ResponseCode::DeviceObjectExists),
                0x7f => Some(ResponseCode::GenericError),
                _ => None,
            }
        }
    }
}

/// Decoding the byte of a response code yields the code back.
pub proof fn lemma_response_code_roundtrip(code: ResponseCode)
    ensures
        ResponseCode::spec_from_u8(code.spec_to_u8()) == Some(code),
{
}

} // verus!
