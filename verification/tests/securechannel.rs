//! Host/device channel pair tests: the happy path and MAC verification
//! failure.

use yubihsm::auth_key::AuthKey;
use yubihsm::challenge::Challenge;
use yubihsm::codes::CommandCode;
use yubihsm::mac::Mac;
use yubihsm::message::{CommandMessage, ResponseMessage};
use yubihsm::securechannel::{SecureChannel, SecurityLevel};
use yubihsm::session_id::SessionId;

const PASSWORD: &[u8] = b"password";
const HOST_CHALLENGE: &[u8] = &[0u8; 8];
const CARD_CHALLENGE: &[u8] = &[0u8; 8];
const COMMAND_CODE: CommandCode = CommandCode::Echo;
const COMMAND_DATA: &[u8] = b"Hello, world!";

fn create_channel_pair() -> (SecureChannel, SecureChannel) {
    let auth_key = AuthKey::derive_from_password(PASSWORD);

    let host_challenge = Challenge::from_slice(HOST_CHALLENGE);
    let card_challenge = Challenge::from_slice(CARD_CHALLENGE);

    let session_id = SessionId::new(0).unwrap();

    // Create channels
    let mut host_channel =
        SecureChannel::new(session_id, &auth_key, &host_challenge, &card_challenge);
    let mut card_channel =
        SecureChannel::new(session_id, &auth_key, &host_challenge, &card_challenge);

    // Auth host to card
    let auth_command = host_channel.authenticate_session().unwrap();
    let auth_response = card_channel
        .verify_authenticate_session(&auth_command)
        .unwrap();

    host_channel
        .finish_authenticate_session(&auth_response)
        .unwrap();

    (host_channel, card_channel)
}

#[test]
fn happy_path_test() {
    let (mut host_channel, mut card_channel) = create_channel_pair();

    // Host sends encrypted command
    let command_ciphertext = host_channel
        .encrypt_command(CommandMessage::new(COMMAND_CODE, Vec::from(COMMAND_DATA)).unwrap())
        .unwrap();

    // Card decrypts command
    let decrypted_command = card_channel.decrypt_command(command_ciphertext).unwrap();

    // Card sends decrypted response
    let response_ciphertext = card_channel
        .encrypt_response(ResponseMessage::success(
            decrypted_command.command_type,
            decrypted_command.data,
        ))
        .unwrap();

    let decrypted_response = host_channel.decrypt_response(response_ciphertext).unwrap();

    assert_eq!(host_channel.security_level, SecurityLevel::Authenticated);
    assert_eq!(decrypted_response.command().unwrap(), COMMAND_CODE);
    assert_eq!(&decrypted_response.data[..], COMMAND_DATA);
}

#[test]
fn mac_verify_failure_test() {
    let (mut host_channel, mut card_channel) = create_channel_pair();

    // Host sends encrypted command
    let command_ciphertext = host_channel
        .encrypt_command(CommandMessage::new(COMMAND_CODE, Vec::from(COMMAND_DATA)).unwrap())
        .unwrap();

    // Card decrypts command
    let decrypted_command = card_channel.decrypt_command(command_ciphertext).unwrap();

    // Card sends decrypted response
    let mut response_ciphertext = card_channel
        .encrypt_response(ResponseMessage::success(
            decrypted_command.command_type,
            decrypted_command.data,
        ))
        .unwrap();

    // Tweak MAC in response
    let mut bad_mac = Vec::from(response_ciphertext.mac.as_ref().unwrap().as_slice());
    bad_mac[0] ^= 0xAA;
    response_ciphertext.mac = Some(Mac::from_slice(&bad_mac));

    let response = host_channel.decrypt_response(response_ciphertext);
    assert!(response.is_err());
    assert_eq!(host_channel.security_level, SecurityLevel::Terminated);
    assert_eq!(
        response.err().unwrap().message(),
        "verification failed: R-MAC mismatch!"
    );
}
