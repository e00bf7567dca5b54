//! Host-side session decisions: building the session-creation exchange,
//! turning its response into a ready channel (verifying the card cryptogram
//! in constant time), and interpreting decrypted inner responses.
//!
//! The transport that carries the frames is outside this crate; it hands
//! byte frames in and out and drives these functions.

use vstd::prelude::*;
use vstd::string::StringExecFns;

use crate::auth_key::AuthKey;
use crate::bytes::{spec_be16, write_be16, zero_bytes};
use crate::challenge::{Challenge, Cryptogram};
use crate::codes::{CommandCode, ResponseCode};
use crate::error::{Error, HsmErrorKind, SessionError, SessionErrorKind};
use crate::kdf::spec_kdf;
use crate::mac::MAC_SIZE;
use crate::message::{spec_command_has_mac, CommandMessage, ResponseMessage, MAX_MSG_SIZE};
use crate::securechannel::{
    spec_command_tag, spec_encrypted_data, spec_same_identity, spec_same_keys, spec_wiped,
    SecureChannel, SecurityLevel, MAX_COMMANDS_PER_SESSION,
};
use crate::session_id::SessionId;

verus! {

/// Credentials used to authenticate to the device: the ID of an auth key
/// object and the key itself.
#[derive(Clone, Debug)]
pub struct Credentials {
    /// Object ID of the auth key on the device.
    pub auth_key_id: u16,
    /// The 32-byte authentication key.
    pub auth_key: AuthKey,
}

/// The payload of the session-creation command: the auth key ID big-endian,
/// followed by the 8-byte host challenge.
pub fn create_session_payload(auth_key_id: u16, host_challenge: &Challenge) -> (r: Vec<u8>)
    requires
        host_challenge.wf(),
    ensures
        r@ == spec_be16(auth_key_id) + host_challenge@,
        r@.len() == 10,
{
    let mut payload: Vec<u8> = Vec::new();
    write_be16(&mut payload, auth_key_id);
    payload.extend_from_slice(host_challenge.as_slice());
    payload
}

/// Build the host channel from the session-creation response payload (the
/// 8-byte card challenge followed by the 8-byte card cryptogram): derive the
/// session keys and verify the card cryptogram in constant time. A wrong
/// cryptogram is an authentication failure; a wrong payload length is a
/// protocol error.
pub fn process_create_session_response(
    auth_key: &AuthKey,
    host_challenge: &Challenge,
    session_id: SessionId,
    response_data: &[u8],
) -> (r: Result<SecureChannel, SessionError>)
    requires
        auth_key.wf(),
        host_challenge.wf(),
        session_id.wf(),
    ensures
        r is Ok <==> (response_data@.len() == 16 && response_data@.subrange(8, 16) == spec_kdf(
            spec_kdf(
                auth_key.spec_mac_key(),
                0b110,
                host_challenge@ + response_data@.subrange(0, 8),
            ),
            0,
            host_challenge@ + response_data@.subrange(0, 8),
        ).take(8)),
        r matches Ok(ch) ==> {
            let context = host_challenge@ + response_data@.subrange(0, 8);
            &&& ch.wf()
            &&& ch.id == session_id
            &&& ch.counter == 0
            &&& ch.security_level == SecurityLevel::NotAuthenticated
            &&& ch.context@ == context
            &&& ch.enc_key@ == spec_kdf(auth_key.spec_enc_key(), 0b100, context)
            &&& ch.mac_key@ == spec_kdf(auth_key.spec_mac_key(), 0b110, context)
            &&& ch.rmac_key@ == spec_kdf(auth_key.spec_mac_key(), 0b111, context)
            &&& ch.mac_chaining_value@ == zero_bytes(16)
        },
        r matches Err(e) ==> (e.kind == if response_data@.len() != 16 {
            SessionErrorKind::ProtocolError
        } else {
            SessionErrorKind::AuthFail
        }),
{
    if response_data.len() != 16 {
        return Err(
            Error::new(
                SessionErrorKind::ProtocolError,
                Some(String::from_str("wrong-length session-creation response")),
            ),
        );
    }
    let card_challenge = Challenge::from_slice(&response_data[0..8]);
    let channel = SecureChannel::new(session_id, auth_key, host_challenge, &card_challenge);
    let expected_card_cryptogram = channel.card_cryptogram();
    let actual_card_cryptogram = Cryptogram::from_slice(&response_data[8..16]);
    if !expected_card_cryptogram.ct_eq(&actual_card_cryptogram) {
        return Err(
            Error::new(
                SessionErrorKind::AuthFail,
                Some(String::from_str("card cryptogram mismatch!")),
            ),
        );
    }
    Ok(channel)
}

/// The on-wire frame of a command that carries neither session ID nor MAC:
/// the code byte, the big-endian payload length, and the payload.
pub open spec fn spec_plain_command_frame(code: CommandCode, data: Seq<u8>) -> Seq<u8> {
    seq![code.spec_to_u8()] + spec_be16(data.len() as u16) + data
}

/// Wrap one command payload for the channel: build the plain inner command,
/// encrypt it, and serialize the authenticated `SessionMessage` into its
/// on-wire frame.
pub fn prepare_session_command(
    channel: &mut SecureChannel,
    command_type: CommandCode,
    command_data: Vec<u8>,
) -> (r: Result<Vec<u8>, SessionError>)
    requires
        old(channel).wf(),
        old(channel).security_level == SecurityLevel::Authenticated,
        !spec_command_has_mac(command_type),
    ensures
        final(channel).wf(),
        spec_same_identity(*old(channel), *final(channel)),
        final(channel).counter == old(channel).counter,
        command_data@.len() > MAX_MSG_SIZE ==> (r matches Err(e) && e.kind
            == SessionErrorKind::ProtocolError && *final(channel) == *old(channel)),
        (command_data@.len() <= MAX_MSG_SIZE && old(channel).counter
            >= MAX_COMMANDS_PER_SESSION) ==> (r matches Err(e) && e.kind
            == SessionErrorKind::CommandLimitExceeded && spec_wiped(*final(channel))),
        (command_data@.len() <= MAX_MSG_SIZE && old(channel).counter
            < MAX_COMMANDS_PER_SESSION) ==> {
            let ciphertext = spec_encrypted_data(
                *old(channel),
                spec_plain_command_frame(command_type, command_data@),
            );
            let tag = spec_command_tag(*old(channel), CommandCode::SessionMessage, ciphertext);
            &&& crate::crypto::spec_cbc_decrypt(
                old(channel).enc_key@,
                crate::securechannel::spec_icv(old(channel).enc_key@, old(channel).counter),
                ciphertext,
            ) == Some(spec_plain_command_frame(command_type, command_data@))
            &&& final(channel).mac_chaining_value@ == tag
            &&& final(channel).security_level == old(channel).security_level
            &&& spec_same_keys(*old(channel), *final(channel))
            &&& (ciphertext.len() <= MAX_MSG_SIZE ==> (r matches Ok(frame) && frame@ == seq![
                CommandCode::SessionMessage.spec_to_u8(),
            ] + spec_be16((1 + ciphertext.len() + MAC_SIZE) as u16) + seq![old(channel).id.0]
                + ciphertext + tag.take(MAC_SIZE as int)))
            &&& (ciphertext.len() > MAX_MSG_SIZE ==> (r matches Err(e) && e.kind
                == SessionErrorKind::ProtocolError))
        },
{
    let inner = match CommandMessage::new(command_type, command_data) {
        Ok(m) => m,
        Err(e) => {
            return Err(e);
        },
    };
    proof {
        assert(inner.spec_serialized() =~= spec_plain_command_frame(command_type, inner.data@));
    }
    let encrypted = match channel.encrypt_command(inner) {
        Ok(m) => m,
        Err(e) => {
            return Err(e);
        },
    };
    let frame = encrypted.into_vec();
    proof {
        assert(frame@ =~= seq![CommandCode::SessionMessage.spec_to_u8()] + spec_be16(
            (1 + encrypted.data@.len() + MAC_SIZE) as u16,
        ) + seq![old(channel).id.0] + encrypted.data@ + encrypted.mac->0@);
    }
    Ok(frame)
}

/// Verify and decrypt a parsed response for the channel, first rejecting an
/// authenticated response that arrives without its R-MAC (the channel
/// terminates, since its integrity can no longer be relied on); with the
/// MAC present this is exactly `decrypt_response`.
pub fn decrypt_session_response(
    channel: &mut SecureChannel,
    encrypted_response: ResponseMessage,
) -> (r: Result<ResponseMessage, SessionError>)
    requires
        old(channel).wf(),
        old(channel).security_level == SecurityLevel::Authenticated,
        old(channel).counter < u32::MAX,
        encrypted_response.data@.len() + 9 <= usize::MAX,
    ensures
        final(channel).wf(),
        spec_same_identity(*old(channel), *final(channel)),
        (encrypted_response.session_id == Some(old(channel).id) && encrypted_response.mac
            is None) ==> (r matches Err(e) && e.kind == SessionErrorKind::ProtocolError
            && spec_wiped(*final(channel))),
        encrypted_response.session_id is None ==> (r matches Err(e) && e.kind
            == SessionErrorKind::ProtocolError && spec_wiped(*final(channel))),
        (encrypted_response.session_id matches Some(sid) && sid != old(channel).id) ==> (
        r matches Err(e) && e.kind == SessionErrorKind::MismatchError && spec_wiped(
            *final(channel),
        )),
        (encrypted_response.session_id == Some(old(channel).id) && encrypted_response.mac
            is Some) ==> {
            let tag = crate::securechannel::spec_response_tag(
                *old(channel),
                encrypted_response.code,
                encrypted_response.data@,
            );
            &&& (encrypted_response.mac->0@ != tag.take(MAC_SIZE as int) ==> (r matches Err(e)
                && e.kind == SessionErrorKind::VerifyFailed && spec_wiped(*final(channel))))
            &&& (encrypted_response.mac->0@ == tag.take(MAC_SIZE as int) ==> {
                let plaintext_opt = crate::crypto::spec_cbc_decrypt(
                    old(channel).enc_key@,
                    crate::securechannel::spec_icv(old(channel).enc_key@, old(channel).counter),
                    encrypted_response.data@,
                );
                &&& final(channel).counter == old(channel).counter + 1
                &&& (plaintext_opt is None ==> (r matches Err(e) && e.kind
                    == SessionErrorKind::ProtocolError && spec_wiped(*final(channel))))
                &&& (plaintext_opt matches Some(pt) ==> {
                    &&& (!crate::message::spec_response_frame_ok(pt) ==> (r matches Err(e)
                        && e.kind == SessionErrorKind::ProtocolError && spec_wiped(
                        *final(channel),
                    )))
                    &&& (crate::message::spec_response_frame_ok(pt) ==> (r matches Ok(m) && {
                        &&& spec_same_keys(*old(channel), *final(channel))
                        &&& final(channel).security_level == old(channel).security_level
                        &&& final(channel).mac_chaining_value@ == old(channel).mac_chaining_value@
                        &&& m.code == ResponseCode::spec_from_u8(pt[0])->0
                        &&& m.session_id == encrypted_response.session_id
                        &&& m.data@ == crate::message::spec_response_frame_data(pt)
                    }))
                })
            })
        },
{
    let mac_missing = match (&encrypted_response.session_id, &encrypted_response.mac) {
        (Some(sid), None) => sid.to_u8() == channel.id().to_u8(),
        _ => false,
    };
    if mac_missing {
        channel.terminate();
        return Err(
            Error::new(
                SessionErrorKind::ProtocolError,
                Some(String::from_str("missing R-MAC in response")),
            ),
        );
    }
    channel.decrypt_response(encrypted_response)
}

/// Interpret a decrypted inner response to a command: a success response for
/// the expected command yields its payload; a device error response (one
/// whose single payload byte carries the error tag) maps to `DeviceError`;
/// anything else is a response error.
pub fn interpret_response(response: ResponseMessage, expected: CommandCode) -> (r: Result<
    Vec<u8>,
    SessionError,
>)
    ensures
        response.code == ResponseCode::Success(expected) ==> (r matches Ok(data) && data@
            == response.data@),
        (!(response.code is Success) && response.data@.len() == 1) ==> (r matches Err(e)
            && e.kind == (SessionErrorKind::DeviceError {
            kind: HsmErrorKind::spec_from_u8(response.data@[0]),
        })),
        (!(response.code is Success) && response.data@.len() != 1) ==> (r matches Err(e)
            && e.kind == SessionErrorKind::ResponseError),
        (response.code is Success && response.code != ResponseCode::Success(expected)) ==> (
        r matches Err(e) && e.kind == SessionErrorKind::ResponseError),
{
    match HsmErrorKind::from_response_message(&response) {
        Some(kind) => {
            return Err(Error::new(SessionErrorKind::DeviceError { kind }, None));
        },
        None => {},
    }
    match response.command() {
        Some(code) => {
            if code.to_u8() == expected.to_u8() {
                proof {
                    crate::codes::lemma_command_code_roundtrip(code);
                    crate::codes::lemma_command_code_roundtrip(expected);
                }
                return Ok(response.data);
            }
        },
        None => {},
    }
    Err(Error::new(SessionErrorKind::ResponseError, None))
}

} // verus!
