//! APDU framing tests: serialization round trips, malformed frames, and the
//! byte-tagged enumerations.

use yubihsm::audit::{AuditOption, AuditTag};
use yubihsm::codes::{CommandCode, ResponseCode};
use yubihsm::domains::Domains;
use yubihsm::error::{
    ClientError, ClientErrorKind, Error, HsmErrorKind, SessionError, SessionErrorKind,
};
use yubihsm::hmac::HMACTag;
use yubihsm::mac::Mac;
use yubihsm::message::{has_rmac, has_session_id, CommandMessage, ResponseMessage};
use yubihsm::session_id::SessionId;

#[test]
fn command_round_trip_plain() {
    let payload: Vec<u8> = (0u8..=0xff).collect();
    let message = CommandMessage::new(CommandCode::Echo, payload.clone()).unwrap();
    let bytes = message.into_vec();
    assert_eq!(bytes[0], 0x01);
    assert_eq!(bytes[1], 0x01);
    assert_eq!(bytes[2], 0x00);
    assert_eq!(bytes.len(), 3 + 256);

    let parsed = CommandMessage::parse(bytes).unwrap();
    assert_eq!(parsed.command_type, CommandCode::Echo);
    assert_eq!(parsed.session_id, None);
    assert_eq!(parsed.data, payload);
    assert!(parsed.mac.is_none());
}

#[test]
fn command_round_trip_with_mac() {
    let mac_bytes: [u8; 8] = [1, 2, 3, 4, 5, 6, 7, 8];
    let message = CommandMessage::new_with_mac(
        CommandCode::SessionMessage,
        SessionId::new(7).unwrap(),
        vec![0xaa, 0xbb, 0xcc],
        Mac::from_slice(&mac_bytes),
    )
    .unwrap();
    let bytes = message.into_vec();
    // code, be16 length (1 + 3 + 8), session id, payload, mac
    assert_eq!(bytes[0], 0x05);
    assert_eq!(bytes[1], 0x00);
    assert_eq!(bytes[2], 12);
    assert_eq!(bytes[3], 7);
    assert_eq!(bytes.len(), 15);

    let parsed = CommandMessage::parse(bytes).unwrap();
    assert_eq!(parsed.command_type, CommandCode::SessionMessage);
    assert_eq!(parsed.session_id, Some(SessionId::new(7).unwrap()));
    assert_eq!(parsed.data, vec![0xaa, 0xbb, 0xcc]);
    assert_eq!(parsed.mac.unwrap().as_slice(), &mac_bytes[..]);
}

#[test]
fn command_round_trip_largest_payload() {
    let payload = vec![0x5a; 2032];
    let message = CommandMessage::new_with_mac(
        CommandCode::SessionMessage,
        SessionId::new(0).unwrap(),
        payload.clone(),
        Mac::from_slice(&[0u8; 8]),
    )
    .unwrap();
    let bytes = message.into_vec();
    assert_eq!(bytes.len(), 3 + 1 + 2032 + 8);
    let parsed = CommandMessage::parse(bytes).unwrap();
    assert_eq!(parsed.data, payload);
}

#[test]
fn response_round_trip_with_mac() {
    let mac_bytes: [u8; 8] = [9, 9, 9, 9, 8, 8, 8, 8];
    let message = ResponseMessage::new_with_mac(
        ResponseCode::Success(CommandCode::SessionMessage),
        SessionId::new(3).unwrap(),
        vec![0x01, 0x02],
        Mac::from_slice(&mac_bytes),
    );
    let bytes = message.into_vec();
    assert_eq!(bytes[0], 0x85);
    let parsed = ResponseMessage::parse(bytes).unwrap();
    assert_eq!(
        parsed.code,
        ResponseCode::Success(CommandCode::SessionMessage)
    );
    assert_eq!(parsed.session_id, Some(SessionId::new(3).unwrap()));
    assert_eq!(parsed.data, vec![0x01, 0x02]);
    assert_eq!(parsed.mac.unwrap().as_slice(), &mac_bytes[..]);
}

#[test]
fn response_round_trip_plain() {
    let message = ResponseMessage::success(CommandCode::Echo, vec![0x42; 5]);
    assert!(!message.is_err());
    assert_eq!(message.command(), Some(CommandCode::Echo));
    assert_eq!(message.len(), 5);
    let bytes = message.into_vec();
    assert_eq!(bytes[0], 0x81);
    let parsed = ResponseMessage::parse(bytes).unwrap();
    assert_eq!(parsed.code, ResponseCode::Success(CommandCode::Echo));
    assert_eq!(parsed.session_id, None);
    assert_eq!(parsed.data, vec![0x42; 5]);
}

#[test]
fn frame_too_short_fails() {
    let r = CommandMessage::parse(vec![0x01]);
    assert_eq!(r.err().unwrap().kind(), SessionErrorKind::ProtocolError);
    let r = ResponseMessage::parse(vec![0x81, 0x00]);
    assert_eq!(r.err().unwrap().kind(), SessionErrorKind::ProtocolError);
}

#[test]
fn frame_length_mismatch_fails() {
    // Length field says 5 bytes follow, but only one does.
    let r = CommandMessage::parse(vec![0x01, 0x00, 0x05, 0xaa]);
    assert_eq!(r.err().unwrap().kind(), SessionErrorKind::ProtocolError);
    // Length field says nothing follows, but one byte does.
    let r = ResponseMessage::parse(vec![0x81, 0x00, 0x00, 0xaa]);
    assert_eq!(r.err().unwrap().kind(), SessionErrorKind::ProtocolError);
}

#[test]
fn frame_unknown_code_fails() {
    let r = CommandMessage::parse(vec![0x02, 0x00, 0x00]);
    assert_eq!(r.err().unwrap().kind(), SessionErrorKind::ProtocolError);
    let r = ResponseMessage::parse(vec![0x7e, 0x00, 0x00]);
    assert_eq!(r.err().unwrap().kind(), SessionErrorKind::ProtocolError);
}

#[test]
fn frame_session_id_out_of_range_fails() {
    // AuthSession frame with session id 16: one id byte plus an 8-byte MAC.
    let mut frame = vec![0x04, 0x00, 0x09, 0x10];
    frame.extend_from_slice(&[0u8; 8]);
    let r = CommandMessage::parse(frame);
    assert_eq!(r.err().unwrap().kind(), SessionErrorKind::ProtocolError);

    // The same frame with session id 15 parses.
    let mut frame = vec![0x04, 0x00, 0x09, 0x0f];
    frame.extend_from_slice(&[0u8; 8]);
    let parsed = CommandMessage::parse(frame).unwrap();
    assert_eq!(parsed.session_id, Some(SessionId::new(15).unwrap()));
    assert_eq!(parsed.data.len(), 0);
}

#[test]
fn frame_missing_mac_fails() {
    // SessionMessage frame with a session id but only 7 trailing bytes.
    let mut frame = vec![0x05, 0x00, 0x08, 0x00];
    frame.extend_from_slice(&[0u8; 7]);
    let r = CommandMessage::parse(frame);
    assert_eq!(r.err().unwrap().kind(), SessionErrorKind::ProtocolError);
}

#[test]
fn session_id_bounds() {
    assert_eq!(SessionId::new(0).unwrap().to_u8(), 0);
    assert_eq!(SessionId::new(15).unwrap().to_u8(), 15);
    assert_eq!(
        SessionId::new(16).err().unwrap().kind(),
        SessionErrorKind::ProtocolError
    );
}

#[test]
fn response_code_byte_map() {
    assert_eq!(ResponseCode::Success(CommandCode::CreateSession).to_u8(), 0x83);
    assert_eq!(ResponseCode::from_u8(0x83), Some(ResponseCode::Success(CommandCode::CreateSession)));
    assert_eq!(ResponseCode::DeviceOk.to_u8(), 0x00);
    assert_eq!(ResponseCode::GenericError.to_u8(), 0x7f);
    assert_eq!(ResponseCode::from_u8(0x11), None);
    assert_eq!(ResponseCode::from_u8(0x82), None);
    assert_eq!(CommandCode::from_u8(0x40), Some(CommandCode::CloseSession));
    assert_eq!(CommandCode::from_u8(0x02), None);
}

#[test]
fn response_session_id_and_rmac_rules() {
    assert!(has_session_id(ResponseCode::Success(CommandCode::CreateSession)));
    assert!(has_session_id(ResponseCode::Success(CommandCode::SessionMessage)));
    assert!(!has_session_id(ResponseCode::Success(CommandCode::Echo)));
    assert!(!has_session_id(ResponseCode::DeviceAuthFail));
    assert!(has_rmac(ResponseCode::Success(CommandCode::SessionMessage)));
    assert!(!has_rmac(ResponseCode::Success(CommandCode::CreateSession)));
    assert!(!has_rmac(ResponseCode::GenericError));
}

#[test]
fn hsm_error_kind_byte_map() {
    for tag in 0x01u8..=0x11 {
        let kind = HsmErrorKind::from_u8(tag);
        assert_ne!(kind, HsmErrorKind::Unknown { code: tag });
        assert_eq!(kind.to_u8(), tag);
    }
    assert_eq!(HsmErrorKind::from_u8(0x01), HsmErrorKind::CommandInvalid);
    assert_eq!(HsmErrorKind::from_u8(0x11), HsmErrorKind::ObjectExists);
    assert_eq!(
        HsmErrorKind::from_u8(0x42),
        HsmErrorKind::Unknown { code: 0x42 }
    );
    assert_eq!(HsmErrorKind::Unknown { code: 0x42 }.to_u8(), 0x42);
}

#[test]
fn hsm_error_kind_from_response_codes() {
    assert_eq!(
        HsmErrorKind::from_response_code(ResponseCode::DeviceAuthFail),
        Some(HsmErrorKind::AuthFail)
    );
    assert_eq!(
        HsmErrorKind::from_response_code(ResponseCode::GenericError),
        Some(HsmErrorKind::GenericError)
    );
    assert_eq!(
        HsmErrorKind::from_response_code(ResponseCode::DeviceOk),
        None
    );
    assert_eq!(
        HsmErrorKind::from_response_code(ResponseCode::Success(CommandCode::Echo)),
        None
    );
}

#[test]
fn hsm_error_kind_from_response_message() {
    let err_response = ResponseMessage::new(ResponseCode::GenericError, vec![0x04]);
    assert!(err_response.is_err());
    assert_eq!(
        HsmErrorKind::from_response_message(&err_response),
        Some(HsmErrorKind::AuthFail)
    );
    let ok_response = ResponseMessage::success(CommandCode::Echo, vec![0x04]);
    assert_eq!(HsmErrorKind::from_response_message(&ok_response), None);
    let odd_response = ResponseMessage::new(ResponseCode::GenericError, vec![]);
    assert_eq!(HsmErrorKind::from_response_message(&odd_response), None);
}

#[test]
fn audit_byte_maps() {
    assert_eq!(AuditOption::from_u8(0x00), Some(AuditOption::Off));
    assert_eq!(AuditOption::from_u8(0x01), Some(AuditOption::On));
    assert_eq!(AuditOption::from_u8(0x02), Some(AuditOption::Fix));
    assert_eq!(AuditOption::from_u8(0x03), None);
    assert_eq!(AuditOption::Fix.to_u8(), 0x02);
    assert_eq!(AuditTag::from_u8(0x01), Some(AuditTag::Force));
    assert_eq!(AuditTag::from_u8(0x03), Some(AuditTag::Command));
    assert_eq!(AuditTag::from_u8(0x02), None);
    assert_eq!(AuditTag::Command.to_u8(), 0x03);
}

#[test]
fn error_message_rendering() {
    let bare: SessionError = Error::new(SessionErrorKind::VerifyFailed, None);
    assert_eq!(bare.kind(), SessionErrorKind::VerifyFailed);
    assert_eq!(bare.message(), "verification failed");
    let described: SessionError = Error::new(
        SessionErrorKind::ProtocolError,
        Some(String::from("bad frame")),
    );
    assert_eq!(described.message(), "protocol error: bad frame");
}

#[test]
fn client_error_from_session_error() {
    let e: ClientError =
        SessionError::new(SessionErrorKind::VerifyFailed, Some(String::from("x"))).into();
    assert_eq!(e.kind(), ClientErrorKind::ProtocolError);
    assert_eq!(e.description, Some(String::from("x")));
    let e: ClientError = SessionError::new(
        SessionErrorKind::DeviceError {
            kind: HsmErrorKind::LogFull,
        },
        None,
    )
    .into();
    assert_eq!(
        e.kind(),
        ClientErrorKind::DeviceError {
            kind: HsmErrorKind::LogFull
        }
    );
    let e: ClientError = SessionError::new(SessionErrorKind::AuthFail, None).into();
    assert_eq!(e.kind(), ClientErrorKind::AuthFail);
    let e: ClientError = SessionError::new(SessionErrorKind::ClosedSessionError, None).into();
    assert_eq!(e.kind(), ClientErrorKind::ClosedSessionError);
}

#[test]
fn hmac_tag_accessors() {
    let tag = HMACTag::new(vec![1, 2, 3, 4]);
    assert_eq!(tag.len(), 4);
    assert_eq!(tag.as_slice(), &[1, 2, 3, 4][..]);
    assert_eq!(tag.into_vec(), vec![1, 2, 3, 4]);
}

#[test]
fn domain_masks() {
    assert_eq!(Domains::all().bits(), 0xffff);
    assert_eq!(Domains::from_bits(0x0101).bits(), 0x0101);
    assert!(Domains::all().contains(Domains::from_bits(0x8001)));
    assert!(!Domains::from_bits(0x0001).contains(Domains::from_bits(0x0003)));
}

#[test]
fn oversize_payload_rejected_by_constructors() {
    let r = CommandMessage::new(CommandCode::Echo, vec![0u8; 2049]);
    assert_eq!(r.err().unwrap().kind(), SessionErrorKind::ProtocolError);
    let r = CommandMessage::new_with_mac(
        CommandCode::SessionMessage,
        SessionId::new(0).unwrap(),
        vec![0u8; 2049],
        Mac::from_slice(&[0u8; 8]),
    );
    assert_eq!(r.err().unwrap().kind(), SessionErrorKind::ProtocolError);
    assert!(CommandMessage::new(CommandCode::Echo, vec![0u8; 2048]).is_ok());
}

#[test]
fn mac_truncation_and_verify() {
    let tag: [u8; 16] = [
        1, 2, 3, 4, 5, 6, 7, 8, 9, 10, 11, 12, 13, 14, 15, 16,
    ];
    let mac = Mac::from_tag(&tag);
    assert_eq!(mac.as_slice(), &tag[..8]);
    assert!(mac.verify(&tag));
    let mut other = tag;
    other[7] ^= 1;
    assert!(!mac.verify(&other));
    // bytes beyond the truncation do not matter
    let mut tail_changed = tag;
    tail_changed[15] ^= 1;
    assert!(mac.verify(&tail_changed));
}

#[test]
fn audit_log_records() {
    let digest = yubihsm::get_logs::LogDigest(vec![0xab; 16]);
    assert_eq!(digest.as_slice(), &[0xab; 16][..]);
    let entry = yubihsm::get_logs::LogEntry {
        item: 1,
        cmd: CommandCode::Echo,
        length: 13,
        session_key: 2,
        target_key: 3,
        second_key: 0xffff,
        result: ResponseCode::Success(CommandCode::Echo),
        tick: 42,
        digest,
    };
    let logs = yubihsm::get_logs::AuditLogs {
        unlogged_boot_events: 0,
        unlogged_auth_events: 0,
        num_entries: 1,
        entries: vec![entry],
    };
    assert_eq!(logs.entries.len(), 1);
    assert_eq!(logs.entries[0].cmd, CommandCode::Echo);

    let audited = yubihsm::audit::AuditCommand {
        command: CommandCode::GenAsymmetricKey,
        audit: AuditOption::On,
    };
    assert_eq!(audited.audit.to_u8(), 0x01);
}
