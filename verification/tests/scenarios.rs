//! Protocol scenarios: key derivation vectors, cryptogram symmetry, tampered
//! MACs, session ID mismatch, and counter exhaustion.

use yubihsm::auth_key::AuthKey;
use yubihsm::challenge::Challenge;
use yubihsm::codes::CommandCode;
use yubihsm::error::SessionErrorKind;
use yubihsm::mac::Mac;
use yubihsm::message::{CommandMessage, ResponseMessage};
use yubihsm::securechannel::{SecureChannel, SecurityLevel, MAX_COMMANDS_PER_SESSION};
use yubihsm::session_id::SessionId;

const PASSWORD: &[u8] = b"password";
const ZERO_CHALLENGE: &[u8] = &[0u8; 8];

fn new_channel() -> SecureChannel {
    let auth_key = AuthKey::derive_from_password(PASSWORD);
    let host_challenge = Challenge::from_slice(ZERO_CHALLENGE);
    let card_challenge = Challenge::from_slice(ZERO_CHALLENGE);
    let session_id = SessionId::new(0).unwrap();
    SecureChannel::new(session_id, &auth_key, &host_challenge, &card_challenge)
}

fn authenticated_pair() -> (SecureChannel, SecureChannel) {
    let mut host_channel = new_channel();
    let mut card_channel = new_channel();
    let auth_command = host_channel.authenticate_session().unwrap();
    let auth_response = card_channel
        .verify_authenticate_session(&auth_command)
        .unwrap();
    host_channel
        .finish_authenticate_session(&auth_response)
        .unwrap();
    (host_channel, card_channel)
}

#[test]
fn password_derived_auth_key_vectors() {
    let auth_key = AuthKey::derive_from_password(PASSWORD);
    let expected_enc: [u8; 16] = [
        0x09, 0x0b, 0x47, 0xdb, 0xed, 0x59, 0x56, 0x54, 0x90, 0x1d, 0xee, 0x1c, 0xc6, 0x55,
        0xe4, 0x20,
    ];
    let expected_mac: [u8; 16] = [
        0x59, 0x2f, 0xd4, 0x83, 0xf7, 0x59, 0xe2, 0x99, 0x09, 0xa0, 0x4c, 0x45, 0x05, 0xd2,
        0xce, 0x0a,
    ];
    assert_eq!(auth_key.enc_key(), &expected_enc[..]);
    assert_eq!(auth_key.mac_key(), &expected_mac[..]);
}

#[test]
fn cryptogram_derivation_symmetric() {
    let host_channel = new_channel();
    let card_channel = new_channel();

    assert_eq!(host_channel.enc_key, card_channel.enc_key);
    assert_eq!(host_channel.mac_key, card_channel.mac_key);
    assert_eq!(host_channel.rmac_key, card_channel.rmac_key);

    let host_side = host_channel.host_cryptogram();
    let card_side = card_channel.host_cryptogram();
    assert_eq!(host_side.as_slice(), card_side.as_slice());
    assert_eq!(host_side.as_slice().len(), 8);
    assert!(host_side.ct_eq(&card_side));

    let card_cryptogram_host = host_channel.card_cryptogram();
    let card_cryptogram_card = card_channel.card_cryptogram();
    assert_eq!(
        card_cryptogram_host.as_slice(),
        card_cryptogram_card.as_slice()
    );
}

#[test]
fn handshake_counters_and_chaining_match() {
    let (host_channel, card_channel) = authenticated_pair();
    assert_eq!(host_channel.security_level, SecurityLevel::Authenticated);
    assert_eq!(card_channel.security_level, SecurityLevel::Authenticated);
    assert_eq!(host_channel.counter(), 1);
    assert_eq!(card_channel.counter(), 1);
    assert_eq!(host_channel.mac_chaining_value, card_channel.mac_chaining_value);
}

#[test]
fn echo_round_trip_advances_counter() {
    let (mut host_channel, mut card_channel) = authenticated_pair();

    let command_ciphertext = host_channel
        .encrypt_command(
            CommandMessage::new(CommandCode::Echo, Vec::from(&b"Hello, world!"[..])).unwrap(),
        )
        .unwrap();
    let decrypted_command = card_channel.decrypt_command(command_ciphertext).unwrap();
    assert_eq!(decrypted_command.command_type, CommandCode::Echo);
    assert_eq!(&decrypted_command.data[..], b"Hello, world!");

    let response_ciphertext = card_channel
        .encrypt_response(ResponseMessage::success(
            decrypted_command.command_type,
            decrypted_command.data,
        ))
        .unwrap();
    let decrypted_response = host_channel.decrypt_response(response_ciphertext).unwrap();

    assert_eq!(&decrypted_response.data[..], b"Hello, world!");
    assert_eq!(host_channel.counter(), 2);
    assert_eq!(card_channel.counter(), 2);
    assert_eq!(host_channel.mac_chaining_value, card_channel.mac_chaining_value);
}

#[test]
fn tampered_mac_wipes_session_keys() {
    let (mut host_channel, mut card_channel) = authenticated_pair();

    let command_ciphertext = host_channel
        .encrypt_command(
            CommandMessage::new(CommandCode::Echo, Vec::from(&b"Hello, world!"[..])).unwrap(),
        )
        .unwrap();
    let decrypted_command = card_channel.decrypt_command(command_ciphertext).unwrap();
    let mut response_ciphertext = card_channel
        .encrypt_response(ResponseMessage::success(
            decrypted_command.command_type,
            decrypted_command.data,
        ))
        .unwrap();

    let mut bad_mac = Vec::from(response_ciphertext.mac.as_ref().unwrap().as_slice());
    bad_mac[0] ^= 0x01;
    response_ciphertext.mac = Some(Mac::from_slice(&bad_mac));

    let response = host_channel.decrypt_response(response_ciphertext);
    assert_eq!(
        response.err().unwrap().kind(),
        SessionErrorKind::VerifyFailed
    );
    assert_eq!(host_channel.security_level, SecurityLevel::Terminated);
    assert_eq!(host_channel.enc_key, vec![0u8; 16]);
    assert_eq!(host_channel.mac_key, vec![0u8; 16]);
    assert_eq!(host_channel.rmac_key, vec![0u8; 16]);
}

#[test]
fn response_session_id_mismatch_terminates() {
    let (mut host_channel, mut card_channel) = authenticated_pair();

    let command_ciphertext = host_channel
        .encrypt_command(
            CommandMessage::new(CommandCode::Echo, Vec::from(&b"Hello, world!"[..])).unwrap(),
        )
        .unwrap();
    let decrypted_command = card_channel.decrypt_command(command_ciphertext).unwrap();
    let mut response_ciphertext = card_channel
        .encrypt_response(ResponseMessage::success(
            decrypted_command.command_type,
            decrypted_command.data,
        ))
        .unwrap();

    response_ciphertext.session_id = Some(SessionId::new(1).unwrap());

    let response = host_channel.decrypt_response(response_ciphertext);
    assert_eq!(
        response.err().unwrap().kind(),
        SessionErrorKind::MismatchError
    );
    assert_eq!(host_channel.security_level, SecurityLevel::Terminated);
}

#[test]
fn counter_exhaustion_terminates() {
    let (mut host_channel, mut card_channel) = authenticated_pair();

    // Pre-set both counters one below the bound.
    host_channel.counter = MAX_COMMANDS_PER_SESSION - 1;
    card_channel.counter = MAX_COMMANDS_PER_SESSION - 1;
    assert_eq!(host_channel.counter, 0x000f_ffff);

    // One more command/response round trip still succeeds...
    let command_ciphertext = host_channel
        .encrypt_command(
            CommandMessage::new(CommandCode::Echo, Vec::from(&b"ping"[..])).unwrap(),
        )
        .unwrap();
    let decrypted_command = card_channel.decrypt_command(command_ciphertext).unwrap();
    let response_ciphertext = card_channel
        .encrypt_response(ResponseMessage::success(
            decrypted_command.command_type,
            decrypted_command.data,
        ))
        .unwrap();
    let decrypted_response = host_channel.decrypt_response(response_ciphertext).unwrap();
    assert_eq!(&decrypted_response.data[..], b"ping");
    assert_eq!(host_channel.counter, 0x0010_0000);

    // ...and the next command is refused and the channel terminated.
    let refused = host_channel
        .encrypt_command(CommandMessage::new(CommandCode::Echo, Vec::new()).unwrap());
    assert_eq!(
        refused.err().unwrap().kind(),
        SessionErrorKind::CommandLimitExceeded
    );
    assert_eq!(host_channel.security_level, SecurityLevel::Terminated);
    assert_eq!(host_channel.enc_key, vec![0u8; 16]);
    assert_eq!(host_channel.mac_key, vec![0u8; 16]);
    assert_eq!(host_channel.rmac_key, vec![0u8; 16]);
}

#[test]
fn session_key_and_wire_vectors() {
    // Independently computed SCP03 vectors for the password-derived auth key
    // and all-zero challenges.
    let channel = new_channel();
    assert_eq!(channel.enc_key, vec![0x38, 0x68, 0x34, 0x0c, 0x28, 0x8e, 0xdd, 0xd0, 0xee, 0x95, 0x96, 0x75, 0x7d, 0xb8, 0x99, 0x35]);
    assert_eq!(channel.mac_key, vec![0xec, 0xa1, 0xfa, 0x52, 0xa6, 0x59, 0x26, 0x2e, 0x58, 0x81, 0x3c, 0x37, 0x64, 0x03, 0x1d, 0x4f]);
    assert_eq!(channel.rmac_key, vec![0xf0, 0x98, 0x44, 0xf5, 0x26, 0xcb, 0xa2, 0x60, 0x62, 0x49, 0x6f, 0xca, 0x6d, 0x61, 0xb3, 0xa5]);
    assert_eq!(channel.host_cryptogram().as_slice(), &[0xaf, 0x33, 0xc0, 0x0e, 0xab, 0xe1, 0x94, 0xc4][..]);
    assert_eq!(channel.card_cryptogram().as_slice(), &[0xf4, 0x73, 0xfb, 0xf5, 0x52, 0xed, 0x5d, 0xc8][..]);

    let (mut host_channel, _card_channel) = authenticated_pair();
    assert_eq!(host_channel.mac_chaining_value, vec![0xcd, 0xff, 0x90, 0x02, 0x22, 0x96, 0xbc, 0xb8, 0x0a, 0xf4, 0xc9, 0xba, 0x57, 0xf8, 0x05, 0xf9]);

    // The exact on-wire frame of the first encrypted Echo command.
    let frame = host_channel
        .encrypt_command(
            CommandMessage::new(CommandCode::Echo, Vec::from(&b"Hello, world!"[..])).unwrap(),
        )
        .unwrap()
        .into_vec();
    assert_eq!(
        frame,
        vec![0x05, 0x00, 0x29, 0x00, 0x36, 0xd2, 0x76, 0x0b, 0x3a, 0xb1, 0x84, 0x59, 0xf3, 0xa1, 0xea, 0x11, 0xd4, 0xae, 0x0a, 0xf9, 0xe8, 0xd0, 0x1a, 0x29, 0xba, 0xdf, 0xee, 0xbc, 0xea, 0xd1, 0xc1, 0xca, 0xda, 0x80, 0x71, 0x0f, 0xdc, 0xb8, 0xd2, 0x21, 0x96, 0x4d, 0x21, 0xcc]
    );
}

#[test]
fn random_challenges_have_challenge_size() {
    let challenge = Challenge::new();
    assert_eq!(challenge.as_slice().len(), 8);
}

#[test]
fn auth_key_from_slice_splits_halves() {
    let mut bytes = [0u8; 32];
    for (i, b) in bytes.iter_mut().enumerate() {
        *b = i as u8;
    }
    let auth_key = AuthKey::from_slice(&bytes);
    assert_eq!(auth_key.enc_key(), &bytes[..16]);
    assert_eq!(auth_key.mac_key(), &bytes[16..]);
}

#[test]
fn unparseable_inner_response_terminates() {
    let (mut host_channel, mut card_channel) = authenticated_pair();

    // Encrypt an inner command whose code byte (0x42) is not a valid
    // response code, and exchange it so both chaining values stay in step.
    let command_ciphertext = host_channel
        .encrypt_command(
            CommandMessage::new(CommandCode::PutOpaqueObject, Vec::new()).unwrap(),
        )
        .unwrap();
    let inner_ciphertext = command_ciphertext.data.clone();
    card_channel.decrypt_command(command_ciphertext).unwrap();

    // The card wraps that ciphertext in a correctly MACed response; it
    // decrypts fine but the plaintext is not a response frame.
    let bogus_response = card_channel
        .response_with_mac(
            yubihsm::codes::ResponseCode::Success(CommandCode::SessionMessage),
            inner_ciphertext,
        )
        .unwrap();

    let r = host_channel.decrypt_response(bogus_response);
    assert_eq!(r.err().unwrap().kind(), SessionErrorKind::ProtocolError);
    assert_eq!(host_channel.security_level, SecurityLevel::Terminated);
    assert_eq!(host_channel.enc_key, vec![0u8; 16]);
    assert_eq!(host_channel.mac_key, vec![0u8; 16]);
    assert_eq!(host_channel.rmac_key, vec![0u8; 16]);
}

#[test]
fn command_session_id_mismatch_terminates_device() {
    let (mut host_channel, mut card_channel) = authenticated_pair();

    let mut command_ciphertext = host_channel
        .encrypt_command(
            CommandMessage::new(CommandCode::Echo, Vec::from(&b"ping"[..])).unwrap(),
        )
        .unwrap();
    command_ciphertext.session_id = Some(SessionId::new(1).unwrap());

    let r = card_channel.decrypt_command(command_ciphertext);
    assert_eq!(r.err().unwrap().kind(), SessionErrorKind::MismatchError);
    assert_eq!(card_channel.security_level, SecurityLevel::Terminated);
    assert_eq!(card_channel.enc_key, vec![0u8; 16]);
}

#[test]
fn bad_host_cryptogram_terminates_card_with_counter_zero() {
    let mut host_channel = new_channel();
    let mut card_channel = new_channel();

    let mut auth_command = host_channel.authenticate_session().unwrap();
    auth_command.data[0] ^= 0x01;

    let r = card_channel.verify_authenticate_session(&auth_command);
    assert_eq!(r.err().unwrap().kind(), SessionErrorKind::VerifyFailed);
    assert_eq!(card_channel.security_level, SecurityLevel::Terminated);
    assert_eq!(card_channel.counter(), 0);
    assert_eq!(card_channel.enc_key, vec![0u8; 16]);
    assert_eq!(card_channel.mac_key, vec![0u8; 16]);
    assert_eq!(card_channel.rmac_key, vec![0u8; 16]);
}
