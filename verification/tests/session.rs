//! Session coordinator tests: the session-creation exchange and response
//! interpretation.

use yubihsm::auth_key::AuthKey;
use yubihsm::challenge::Challenge;
use yubihsm::codes::{CommandCode, ResponseCode};
use yubihsm::error::{HsmErrorKind, SessionErrorKind};
use yubihsm::message::ResponseMessage;
use yubihsm::securechannel::{SecureChannel, SecurityLevel};
use yubihsm::session::{create_session_payload, interpret_response};
use yubihsm::session_id::SessionId;

const PASSWORD: &[u8] = b"password";

#[test]
fn create_session_payload_layout() {
    let host_challenge = Challenge::from_slice(&[1, 2, 3, 4, 5, 6, 7, 8]);
    let payload = create_session_payload(0x0102, &host_challenge);
    assert_eq!(payload, vec![0x01, 0x02, 1, 2, 3, 4, 5, 6, 7, 8]);
}

#[test]
fn create_session_response_accepted() {
    let auth_key = AuthKey::derive_from_password(PASSWORD);
    let host_challenge = Challenge::from_slice(&[0x11; 8]);
    let card_challenge = Challenge::from_slice(&[0x22; 8]);
    let session_id = SessionId::new(4).unwrap();

    // The device derives its own channel and answers with its challenge and
    // card cryptogram.
    let device_channel =
        SecureChannel::new(session_id, &auth_key, &host_challenge, &card_challenge);
    let mut response_data = Vec::from(card_challenge.as_slice());
    response_data.extend_from_slice(device_channel.card_cryptogram().as_slice());

    let host_channel = yubihsm::session::process_create_session_response(
        &auth_key,
        &host_challenge,
        session_id,
        &response_data,
    )
    .unwrap();

    assert_eq!(host_channel.id().to_u8(), 4);
    assert_eq!(host_channel.security_level, SecurityLevel::NotAuthenticated);
    assert_eq!(host_channel.counter(), 0);
    assert_eq!(host_channel.enc_key, device_channel.enc_key);
    assert_eq!(host_channel.mac_key, device_channel.mac_key);
    assert_eq!(host_channel.rmac_key, device_channel.rmac_key);
}

#[test]
fn create_session_response_bad_cryptogram_rejected() {
    let auth_key = AuthKey::derive_from_password(PASSWORD);
    let host_challenge = Challenge::from_slice(&[0x11; 8]);
    let card_challenge = Challenge::from_slice(&[0x22; 8]);
    let session_id = SessionId::new(0).unwrap();

    let device_channel =
        SecureChannel::new(session_id, &auth_key, &host_challenge, &card_challenge);
    let mut response_data = Vec::from(card_challenge.as_slice());
    response_data.extend_from_slice(device_channel.card_cryptogram().as_slice());
    // Flip one bit of the cryptogram.
    response_data[8] ^= 0x80;

    let r = yubihsm::session::process_create_session_response(
        &auth_key,
        &host_challenge,
        session_id,
        &response_data,
    );
    assert_eq!(r.err().unwrap().kind(), SessionErrorKind::AuthFail);
}

#[test]
fn create_session_response_bad_length_rejected() {
    let auth_key = AuthKey::derive_from_password(PASSWORD);
    let host_challenge = Challenge::from_slice(&[0x11; 8]);
    let r = yubihsm::session::process_create_session_response(
        &auth_key,
        &host_challenge,
        SessionId::new(0).unwrap(),
        &[0u8; 15],
    );
    assert_eq!(r.err().unwrap().kind(), SessionErrorKind::ProtocolError);
}

#[test]
fn interpret_response_cases() {
    let ok = interpret_response(
        ResponseMessage::success(CommandCode::Echo, vec![1, 2, 3]),
        CommandCode::Echo,
    );
    assert_eq!(ok.unwrap(), vec![1, 2, 3]);

    let device_error = interpret_response(
        ResponseMessage::new(ResponseCode::GenericError, vec![0x0a]),
        CommandCode::Echo,
    );
    assert_eq!(
        device_error.err().unwrap().kind(),
        SessionErrorKind::DeviceError {
            kind: HsmErrorKind::LogFull
        }
    );

    let wrong_command = interpret_response(
        ResponseMessage::success(CommandCode::GetLogs, vec![]),
        CommandCode::Echo,
    );
    assert_eq!(
        wrong_command.err().unwrap().kind(),
        SessionErrorKind::ResponseError
    );

    let unspecific = interpret_response(
        ResponseMessage::new(ResponseCode::GenericError, vec![]),
        CommandCode::Echo,
    );
    assert_eq!(
        unspecific.err().unwrap().kind(),
        SessionErrorKind::ResponseError
    );
}

#[test]
fn prepare_session_command_builds_wire_frame() {
    let auth_key = AuthKey::derive_from_password(PASSWORD);
    let host_challenge = Challenge::from_slice(&[0u8; 8]);
    let card_challenge = Challenge::from_slice(&[0u8; 8]);
    let session_id = SessionId::new(0).unwrap();
    let mut host_channel =
        SecureChannel::new(session_id, &auth_key, &host_challenge, &card_challenge);
    let mut card_channel =
        SecureChannel::new(session_id, &auth_key, &host_challenge, &card_challenge);
    let auth_command = host_channel.authenticate_session().unwrap();
    let auth_response = card_channel
        .verify_authenticate_session(&auth_command)
        .unwrap();
    host_channel
        .finish_authenticate_session(&auth_response)
        .unwrap();

    let frame = yubihsm::session::prepare_session_command(
        &mut host_channel,
        CommandCode::Echo,
        Vec::from(&b"Hello, world!"[..]),
    )
    .unwrap();
    // The device accepts the frame as-is.
    let parsed = yubihsm::message::CommandMessage::parse(frame).unwrap();
    let decrypted = card_channel.decrypt_command(parsed).unwrap();
    assert_eq!(decrypted.command_type, CommandCode::Echo);
    assert_eq!(&decrypted.data[..], b"Hello, world!");
}

#[test]
fn decrypt_session_response_rejects_missing_mac() {
    let auth_key = AuthKey::derive_from_password(PASSWORD);
    let host_challenge = Challenge::from_slice(&[0u8; 8]);
    let card_challenge = Challenge::from_slice(&[0u8; 8]);
    let session_id = SessionId::new(0).unwrap();
    let mut host_channel =
        SecureChannel::new(session_id, &auth_key, &host_challenge, &card_challenge);
    let mut card_channel =
        SecureChannel::new(session_id, &auth_key, &host_challenge, &card_challenge);
    let auth_command = host_channel.authenticate_session().unwrap();
    let auth_response = card_channel
        .verify_authenticate_session(&auth_command)
        .unwrap();
    host_channel
        .finish_authenticate_session(&auth_response)
        .unwrap();

    // A response that claims the channel's session ID but carries no MAC.
    let bogus = yubihsm::message::ResponseMessage {
        code: ResponseCode::Success(CommandCode::SessionMessage),
        session_id: Some(session_id),
        data: vec![0u8; 16],
        mac: None,
    };
    let r = yubihsm::session::decrypt_session_response(&mut host_channel, bogus);
    assert_eq!(r.err().unwrap().kind(), SessionErrorKind::ProtocolError);
    assert_eq!(host_channel.security_level, SecurityLevel::Terminated);
}
