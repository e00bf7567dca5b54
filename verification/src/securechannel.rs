//! The SCP03 secure channel: session key derivation, mutual authentication,
//! per-message AES-128-CBC encryption with an ICV derived from a counter, and
//! chained AES-128-CMAC authentication of commands and responses.
//!
//! The channel is symmetric: the same state machine, run with the roles
//! swapped, implements the device side (used to validate the host side
//! against itself).

use vstd::prelude::*;
use vstd::string::StringExecFns;

use crate::auth_key::AuthKey;
use crate::bytes::{spec_be16, spec_be32, write_be16, write_be32, write_zeros, zero_bytes};
use crate::challenge::{Challenge, Context, Cryptogram, CRYPTOGRAM_SIZE};
use crate::codes::{CommandCode, ResponseCode};
use crate::crypto;
use crate::crypto::{spec_aes128_encrypt_block, spec_cbc_decrypt, spec_cbc_encrypt, spec_cmac_aes128};
use crate::error::{Error, SessionError, SessionErrorKind};
use crate::kdf;
use crate::kdf::spec_kdf;
use crate::mac::{Mac, MAC_SIZE};
use crate::message::{CommandMessage, ResponseMessage, MAX_MSG_SIZE};
use crate::session_id::SessionId;

verus! {

/// AES key size in bytes. SCP03 theoretically supports other key sizes, but
/// this implementation is specialized to 128-bit keys.
pub const KEY_SIZE: usize = 16;

/// Size of an AES block in bytes.
pub const AES_BLOCK_SIZE: usize = 16;

/// Maximum number of messages allowed in a single session: 2^20.
///
/// A conservative bound chosen because of the small (8-byte) MAC tags the
/// protocol uses: to stay clear of collision bounds, fresh session keys must
/// be negotiated after this many messages.
pub const MAX_COMMANDS_PER_SESSION: u32 = 0x10_0000;

/// Current security level: the protocol state of a channel.
#[derive(Clone, Copy, Debug, Eq, PartialEq, Structural)]
pub enum SecurityLevel {
    /// `NO_SECURITY_LEVEL`: the channel is not yet fully initialized.
    NotAuthenticated,
    /// `AUTHENTICATED`: the external-authenticate handshake has completed.
    Authenticated,
    /// Terminated: either explicitly closed or after a protocol error.
    Terminated,
}

/// SCP03 secure channel.
///
/// Key material is wiped by `terminate`, which every integrity or limit
/// failure calls; there is no drop-time wiping, so a channel that is simply
/// discarded should be terminated first.
#[derive(Debug)]
pub struct SecureChannel {
    /// ID of this channel (a.k.a. session ID).
    pub id: SessionId,
    /// Number of messages sent over this channel.
    pub counter: u32,
    /// External authentication state.
    pub security_level: SecurityLevel,
    /// Context: host challenge concatenated with card challenge.
    pub context: Context,
    /// Session encryption key (S-ENC).
    pub enc_key: Vec<u8>,
    /// Session command MAC key (S-MAC).
    pub mac_key: Vec<u8>,
    /// Session response MAC key (S-RMAC).
    pub rmac_key: Vec<u8>,
    /// Chaining value included when computing MACs.
    pub mac_chaining_value: Vec<u8>,
}

/// The input a chained MAC is computed over: the 16-byte chaining value, the
/// code byte, the big-endian length, the session ID byte, and the payload.
pub open spec fn spec_mac_input(
    chain: Seq<u8>,
    code_byte: u8,
    length: u16,
    session_id_byte: u8,
    data: Seq<u8>,
) -> Seq<u8> {
    chain + seq![code_byte] + spec_be16(length) + seq![session_id_byte] + data
}

/// The full 16-byte C-MAC tag a channel computes for a command with the
/// given code and payload; the length field counts the session ID byte, the
/// payload, and the 8-byte MAC still to come.
pub open spec fn spec_command_tag(ch: SecureChannel, code: CommandCode, data: Seq<u8>) -> Seq<
    u8,
> {
    spec_cmac_aes128(
        ch.mac_key@,
        spec_mac_input(
            ch.mac_chaining_value@,
            code.spec_to_u8(),
            (1 + data.len() + MAC_SIZE) as u16,
            ch.id.0,
            data,
        ),
    )
}

/// The full 16-byte R-MAC tag a channel computes for a response with the
/// given code and payload, under the S-RMAC key.
pub open spec fn spec_response_tag(ch: SecureChannel, code: ResponseCode, data: Seq<u8>) -> Seq<
    u8,
> {
    spec_cmac_aes128(
        ch.rmac_key@,
        spec_mac_input(
            ch.mac_chaining_value@,
            code.spec_to_u8(),
            (1 + data.len() + MAC_SIZE) as u16,
            ch.id.0,
            data,
        ),
    )
}

/// The initial chaining vector for CBC: the AES encryption, under S-ENC, of
/// a block holding the counter big-endian in its last four bytes.
pub open spec fn spec_icv(enc_key: Seq<u8>, counter: u32) -> Seq<u8> {
    spec_aes128_encrypt_block(enc_key, zero_bytes(12) + spec_be32(counter))
}

/// The ciphertext a channel produces for a serialized inner message at its
/// current counter.
pub open spec fn spec_encrypted_data(ch: SecureChannel, plaintext: Seq<u8>) -> Seq<u8> {
    spec_cbc_encrypt(ch.enc_key@, spec_icv(ch.enc_key@, ch.counter), plaintext)
}

/// A channel whose key material has been wiped after termination.
pub open spec fn spec_wiped(ch: SecureChannel) -> bool {
    &&& ch.security_level == SecurityLevel::Terminated
    &&& ch.enc_key@ == zero_bytes(KEY_SIZE as int)
    &&& ch.mac_key@ == zero_bytes(KEY_SIZE as int)
    &&& ch.rmac_key@ == zero_bytes(KEY_SIZE as int)
    &&& ch.mac_chaining_value@ == zero_bytes(16)
}

/// The identity of a channel (ID and context), which no operation changes.
pub open spec fn spec_same_identity(a: SecureChannel, b: SecureChannel) -> bool {
    &&& b.id == a.id
    &&& b.context@ == a.context@
}

/// Both channels hold the same key material.
pub open spec fn spec_same_keys(a: SecureChannel, b: SecureChannel) -> bool {
    &&& b.enc_key@ == a.enc_key@
    &&& b.mac_key@ == a.mac_key@
    &&& b.rmac_key@ == a.rmac_key@
}

/// Derive a key using the SCP03 KDF.
pub fn derive_key(parent_key: &[u8], derivation_constant: u8, context: &Context) -> (r: Vec<u8>)
    requires
        parent_key@.len() == KEY_SIZE,
        context.wf(),
    ensures
        r@ == spec_kdf(parent_key@, derivation_constant, context@),
        r@.len() == KEY_SIZE,
{
    kdf::derive(parent_key, derivation_constant, context)
}

/// Compute an "initial chaining vector" (ICV) from a counter.
fn compute_icv(enc_key: &Vec<u8>, counter: u32) -> (r: Vec<u8>)
    requires
        enc_key@.len() == KEY_SIZE,
    ensures
        r@ == spec_icv(enc_key@, counter),
        r@.len() == 16,
{
    let mut block: Vec<u8> = Vec::new();
    write_zeros(&mut block, AES_BLOCK_SIZE - 4);
    write_be32(&mut block, counter);
    crypto::aes128_encrypt_block(enc_key.as_slice(), block.as_slice())
}

impl SecureChannel {
    /// The channel's structural invariant: a valid session ID, a 16-byte
    /// context, and 16-byte keys and chaining value.
    pub open spec fn wf(&self) -> bool {
        &&& self.id.wf()
        &&& self.context.wf()
        &&& self.enc_key@.len() == KEY_SIZE
        &&& self.mac_key@.len() == KEY_SIZE
        &&& self.rmac_key@.len() == KEY_SIZE
        &&& self.mac_chaining_value@.len() == 16
    }

    /// The 8-byte cryptogram for a KDF label: `0x00` for the card's, `0x01`
    /// for the host's, derived under S-MAC from the session context.
    pub open spec fn spec_cryptogram(&self, label: u8) -> Seq<u8> {
        spec_kdf(self.mac_key@, label, self.context@).take(CRYPTOGRAM_SIZE as int)
    }

    /// Create a new channel with the given ID, auth key, and host/card
    /// challenges. Session keys are derived immediately; the counter starts
    /// at zero and the chaining value all-zero.
    pub fn new(
        id: SessionId,
        auth_key: &AuthKey,
        host_challenge: &Challenge,
        card_challenge: &Challenge,
    ) -> (r: Self)
        requires
            auth_key.wf(),
            host_challenge.wf(),
            card_challenge.wf(),
            id.wf(),
        ensures
            r.id == id,
            r.counter == 0,
            r.security_level == SecurityLevel::NotAuthenticated,
            r.context@ == host_challenge@ + card_challenge@,
            r.enc_key@ == spec_kdf(auth_key.spec_enc_key(), 0b100, r.context@),
            r.mac_key@ == spec_kdf(auth_key.spec_mac_key(), 0b110, r.context@),
            r.rmac_key@ == spec_kdf(auth_key.spec_mac_key(), 0b111, r.context@),
            r.mac_chaining_value@ == zero_bytes(16),
            r.wf(),
    {
        let context = Context::from_challenges(host_challenge, card_challenge);
        let enc_key = derive_key(auth_key.enc_key(), 0b100, &context);
        let mac_key = derive_key(auth_key.mac_key(), 0b110, &context);
        let rmac_key = derive_key(auth_key.mac_key(), 0b111, &context);
        let mut mac_chaining_value: Vec<u8> = Vec::new();
        write_zeros(&mut mac_chaining_value, 16);
        Self {
            id,
            counter: 0,
            security_level: SecurityLevel::NotAuthenticated,
            context,
            enc_key,
            mac_key,
            rmac_key,
            mac_chaining_value,
        }
    }

    /// Get the channel (i.e. session) ID.
    pub fn id(&self) -> (r: SessionId)
        ensures
            r == self.id,
    {
        self.id
    }

    /// Get the current value of the internal message counter.
    pub fn counter(&self) -> (r: usize)
        ensures
            r == self.counter as usize,
    {
        self.counter as usize
    }

    /// Calculate the card's cryptogram for this session.
    pub fn card_cryptogram(&self) -> (r: Cryptogram)
        requires
            self.wf(),
        ensures
            r@ == self.spec_cryptogram(0),
            r.wf(),
    {
        let mut result_bytes = kdf::derive(self.mac_key.as_slice(), 0, &self.context);
        let result = Cryptogram::from_slice(&result_bytes.as_slice()[0..CRYPTOGRAM_SIZE]);
        crypto::wipe(&mut result_bytes);
        result
    }

    /// Calculate the host's cryptogram for this session.
    pub fn host_cryptogram(&self) -> (r: Cryptogram)
        requires
            self.wf(),
        ensures
            r@ == self.spec_cryptogram(1),
            r.wf(),
    {
        let mut result_bytes = kdf::derive(self.mac_key.as_slice(), 1, &self.context);
        let result = Cryptogram::from_slice(&result_bytes.as_slice()[0..CRYPTOGRAM_SIZE]);
        crypto::wipe(&mut result_bytes);
        result
    }

    /// Terminate the session: wipe the session keys and the chaining value.
    pub fn terminate(&mut self)
        ensures
            final(self).security_level == SecurityLevel::Terminated,
            final(self).enc_key@ == zero_bytes(old(self).enc_key@.len() as int),
            final(self).mac_key@ == zero_bytes(old(self).mac_key@.len() as int),
            final(self).rmac_key@ == zero_bytes(old(self).rmac_key@.len() as int),
            final(self).mac_chaining_value@ == zero_bytes(
                old(self).mac_chaining_value@.len() as int,
            ),
            final(self).id == old(self).id,
            final(self).counter == old(self).counter,
            final(self).context@ == old(self).context@,
            old(self).wf() ==> final(self).wf() && spec_wiped(*final(self)),
    {
        self.security_level = SecurityLevel::Terminated;
        crypto::wipe(&mut self.enc_key);
        crypto::wipe(&mut self.mac_key);
        crypto::wipe(&mut self.rmac_key);
        crypto::wipe(&mut self.mac_chaining_value);
    }

    /// Increment the internal message counter.
    fn increment_counter(&mut self)
        requires
            old(self).counter < u32::MAX,
        ensures
            *final(self) == (SecureChannel { counter: (old(self).counter + 1) as u32, ..*old(self) }),
    {
        self.counter = self.counter + 1;
    }

    /// Compute a command message with a MAC value for this session.
    ///
    /// When the per-session command limit has been reached, the channel
    /// terminates and the command is refused. Otherwise the full 16-byte
    /// C-MAC tag becomes the new chaining value and the message carries its
    /// 8-byte truncation.
    pub fn command_with_mac(&mut self, command_type: CommandCode, command_data: &[u8]) -> (r:
        Result<CommandMessage, SessionError>)
        requires
            old(self).wf(),
            command_data@.len() + 9 <= usize::MAX,
        ensures
            final(self).wf(),
            spec_same_identity(*old(self), *final(self)),
            final(self).counter == old(self).counter,
            old(self).counter >= MAX_COMMANDS_PER_SESSION ==> (r matches Err(e)
                && e.kind == SessionErrorKind::CommandLimitExceeded && spec_wiped(*final(self))),
            old(self).counter < MAX_COMMANDS_PER_SESSION ==> {
                let tag = spec_command_tag(*old(self), command_type, command_data@);
                &&& final(self).mac_chaining_value@ == tag
                &&& final(self).security_level == old(self).security_level
                &&& spec_same_keys(*old(self), *final(self))
                &&& (command_data@.len() <= MAX_MSG_SIZE ==> (r matches Ok(m) && {
                    &&& m.command_type == command_type
                    &&& m.session_id == Some(old(self).id)
                    &&& m.data@ == command_data@
                    &&& m.mac matches Some(t) && t@ == tag.take(MAC_SIZE as int)
                }))
                &&& (command_data@.len() > MAX_MSG_SIZE ==> (r matches Err(e) && e.kind
                    == SessionErrorKind::ProtocolError))
            },
    {
        if self.counter >= MAX_COMMANDS_PER_SESSION {
            self.terminate();
            return Err(
                Error::new(
                    SessionErrorKind::CommandLimitExceeded,
                    Some(String::from_str("max commands per session exceeded")),
                ),
            );
        }
        let mut mac_input: Vec<u8> = Vec::new();
        mac_input.extend_from_slice(self.mac_chaining_value.as_slice());
        mac_input.push(command_type.to_u8());
        let length = 1 + command_data.len() + MAC_SIZE;
        write_be16(&mut mac_input, length as u16);
        mac_input.push(self.id.to_u8());
        mac_input.extend_from_slice(command_data);
        proof {
            assert(mac_input@ =~= spec_mac_input(
                self.mac_chaining_value@,
                command_type.spec_to_u8(),
                (1 + command_data@.len() + MAC_SIZE) as u16,
                self.id.0,
                command_data@,
            ));
        }
        let tag = crypto::cmac_aes128(self.mac_key.as_slice(), mac_input.as_slice());
        let mut new_chain: Vec<u8> = Vec::new();
        new_chain.extend_from_slice(tag.as_slice());
        self.mac_chaining_value = new_chain;
        let mac = Mac::from_tag(tag.as_slice());
        let mut data_vec: Vec<u8> = Vec::new();
        data_vec.extend_from_slice(command_data);
        CommandMessage::new_with_mac(command_type, self.id, data_vec, mac)
    }

    /// Compute the message that authenticates the host to the card: an
    /// `AuthSession` command whose payload is the 8-byte host cryptogram,
    /// MACed into the (all-zero) chaining value.
    pub fn authenticate_session(&mut self) -> (r: Result<CommandMessage, SessionError>)
        requires
            old(self).wf(),
            old(self).security_level == SecurityLevel::NotAuthenticated,
            old(self).mac_chaining_value@ == zero_bytes(16),
            old(self).counter < MAX_COMMANDS_PER_SESSION,
        ensures
            final(self).wf(),
            spec_same_identity(*old(self), *final(self)),
            spec_same_keys(*old(self), *final(self)),
            final(self).counter == old(self).counter,
            final(self).security_level == old(self).security_level,
            final(self).mac_chaining_value@ == spec_command_tag(
                *old(self),
                CommandCode::AuthSession,
                old(self).spec_cryptogram(1),
            ),
            r matches Ok(m) && {
                &&& m.command_type == CommandCode::AuthSession
                &&& m.session_id == Some(old(self).id)
                &&& m.data@ == old(self).spec_cryptogram(1)
                &&& m.mac matches Some(t) && t@ == spec_command_tag(
                    *old(self),
                    CommandCode::AuthSession,
                    old(self).spec_cryptogram(1),
                ).take(MAC_SIZE as int)
                &&& m.wf()
            },
    {
        let host_cryptogram = self.host_cryptogram();
        self.command_with_mac(CommandCode::AuthSession, host_cryptogram.as_slice())
    }

    /// Handle the authenticate-session response from the card: an empty
    /// payload authenticates the channel and starts the counter at 1; any
    /// other payload terminates the channel with a protocol error.
    pub fn finish_authenticate_session(&mut self, response: &ResponseMessage) -> (r: Result<
        (),
        SessionError,
    >)
        requires
            old(self).wf(),
            old(self).security_level == SecurityLevel::NotAuthenticated,
        ensures
            final(self).wf(),
            spec_same_identity(*old(self), *final(self)),
            final(self).counter == if response.data@.len() == 0 {
                1u32
            } else {
                old(self).counter
            },
            response.data@.len() == 0 ==> (r is Ok && final(self).security_level
                == SecurityLevel::Authenticated && spec_same_keys(*old(self), *final(self))
                && final(self).mac_chaining_value@ == old(self).mac_chaining_value@),
            response.data@.len() != 0 ==> (r matches Err(e) && e.kind
                == SessionErrorKind::ProtocolError && spec_wiped(*final(self))),
    {
        if !response.data.is_empty() {
            self.terminate();
            return Err(
                Error::new(
                    SessionErrorKind::ProtocolError,
                    Some(String::from_str("expected empty response data")),
                ),
            );
        }
        self.security_level = SecurityLevel::Authenticated;
        self.counter = 1;
        Ok(())
    }

    /// Encrypt a command to be sent to the card: serialize it, CBC-encrypt
    /// under S-ENC with the counter-derived ICV, and wrap the ciphertext in
    /// an authenticated `SessionMessage` command.
    pub fn encrypt_command(&mut self, command: CommandMessage) -> (r: Result<
        CommandMessage,
        SessionError,
    >)
        requires
            old(self).wf(),
            old(self).security_level == SecurityLevel::Authenticated,
            command.wf(),
        ensures
            final(self).wf(),
            spec_same_identity(*old(self), *final(self)),
            final(self).counter == old(self).counter,
            old(self).counter >= MAX_COMMANDS_PER_SESSION ==> (r matches Err(e) && e.kind
                == SessionErrorKind::CommandLimitExceeded && spec_wiped(*final(self))),
            old(self).counter < MAX_COMMANDS_PER_SESSION ==> {
                let ciphertext = spec_encrypted_data(*old(self), command.spec_serialized());
                let tag = spec_command_tag(*old(self), CommandCode::SessionMessage, ciphertext);
                &&& spec_cbc_decrypt(
                    old(self).enc_key@,
                    spec_icv(old(self).enc_key@, old(self).counter),
                    ciphertext,
                ) == Some(command.spec_serialized())
                &&& final(self).mac_chaining_value@ == tag
                &&& final(self).security_level == old(self).security_level
                &&& spec_same_keys(*old(self), *final(self))
                &&& (ciphertext.len() <= MAX_MSG_SIZE ==> (r matches Ok(m) && {
                    &&& m.command_type == CommandCode::SessionMessage
                    &&& m.session_id == Some(old(self).id)
                    &&& m.data@ == ciphertext
                    &&& m.mac matches Some(t) && t@ == tag.take(MAC_SIZE as int)
                    &&& m.wf()
                }))
                &&& (ciphertext.len() > MAX_MSG_SIZE ==> (r matches Err(e) && e.kind
                    == SessionErrorKind::ProtocolError))
            },
    {
        let serialized = command.into_vec();
        proof {
            assert(serialized@.len() == 3 + command.spec_len());
        }
        let icv = compute_icv(&self.enc_key, self.counter);
        let ciphertext = crypto::cbc_encrypt_iso7816(
            self.enc_key.as_slice(),
            icv.as_slice(),
            serialized.as_slice(),
        );
        self.command_with_mac(CommandCode::SessionMessage, ciphertext.as_slice())
    }

    /// Ensure message authenticity by verifying the response MAC (R-MAC)
    /// sent from the card. The chaining value is not updated on the response
    /// path; the counter advances only when the MAC verifies.
    pub fn verify_response_mac(&mut self, response: &ResponseMessage) -> (r: Result<
        (),
        SessionError,
    >)
        requires
            old(self).wf(),
            old(self).security_level == SecurityLevel::Authenticated,
            old(self).counter < u32::MAX,
            response.data@.len() + 9 <= usize::MAX,
            response.session_id == Some(old(self).id) ==> response.mac is Some,
        ensures
            final(self).wf(),
            spec_same_identity(*old(self), *final(self)),
            response.session_id is None ==> (r matches Err(e) && e.kind
                == SessionErrorKind::ProtocolError && spec_wiped(*final(self)) && final(self).counter == old(self).counter),
            (response.session_id matches Some(sid) && sid != old(self).id) ==> (r matches Err(e)
                && e.kind == SessionErrorKind::MismatchError && spec_wiped(*final(self)) && final(self).counter == old(self).counter),
            response.session_id == Some(old(self).id) ==> {
                let tag = spec_response_tag(*old(self), response.code, response.data@);
                &&& (response.mac->0@ == tag.take(MAC_SIZE as int) ==> (r is Ok && *final(self)
                    == (SecureChannel { counter: (old(self).counter + 1) as u32, ..*old(self) })))
                &&& (response.mac->0@ != tag.take(MAC_SIZE as int) ==> (r matches Err(e) && e.kind
                    == SessionErrorKind::VerifyFailed && spec_wiped(*final(self)) && final(self).counter == old(self).counter))
            },
    {
        let session_id = match &response.session_id {
            Some(id) => *id,
            None => {
                self.terminate();
                return Err(
                    Error::new(
                        SessionErrorKind::ProtocolError,
                        Some(String::from_str("no session ID in response")),
                    ),
                );
            },
        };
        if self.id.to_u8() != session_id.to_u8() {
            self.terminate();
            return Err(
                Error::new(
                    SessionErrorKind::MismatchError,
                    Some(String::from_str("unexpected session ID")),
                ),
            );
        }
        let mut mac_input: Vec<u8> = Vec::new();
        mac_input.extend_from_slice(self.mac_chaining_value.as_slice());
        mac_input.push(response.code.to_u8());
        let length = response.len();
        write_be16(&mut mac_input, length as u16);
        mac_input.push(session_id.to_u8());
        mac_input.extend_from_slice(response.data.as_slice());
        proof {
            assert(mac_input@ =~= spec_mac_input(
                self.mac_chaining_value@,
                response.code.spec_to_u8(),
                (1 + response.data@.len() + MAC_SIZE) as u16,
                self.id.0,
                response.data@,
            ));
        }
        let tag = crypto::cmac_aes128(self.rmac_key.as_slice(), mac_input.as_slice());
        if !response.mac.as_ref().unwrap().verify(tag.as_slice()) {
            self.terminate();
            return Err(
                Error::new(
                    SessionErrorKind::VerifyFailed,
                    Some(String::from_str("R-MAC mismatch!")),
                ),
            );
        }
        self.increment_counter();
        Ok(())
    }

    /// Verify and decrypt a response from the card: check the R-MAC (which
    /// advances the counter), CBC-decrypt the payload with the ICV of the
    /// counter the response was encrypted under, parse the inner response,
    /// and propagate the outer session ID onto it. Every failure — wrong or
    /// missing session ID, MAC mismatch, undecryptable or unparseable
    /// payload — is fatal: the channel terminates and its keys are wiped.
    pub fn decrypt_response(&mut self, encrypted_response: ResponseMessage) -> (r: Result<
        ResponseMessage,
        SessionError,
    >)
        requires
            old(self).wf(),
            old(self).security_level == SecurityLevel::Authenticated,
            old(self).counter < u32::MAX,
            encrypted_response.data@.len() + 9 <= usize::MAX,
            encrypted_response.session_id == Some(old(self).id) ==> encrypted_response.mac
                is Some,
        ensures
            final(self).wf(),
            spec_same_identity(*old(self), *final(self)),
            encrypted_response.session_id is None ==> (r matches Err(e) && e.kind
                == SessionErrorKind::ProtocolError && spec_wiped(*final(self))),
            (encrypted_response.session_id matches Some(sid) && sid != old(self).id) ==> (
            r matches Err(e) && e.kind == SessionErrorKind::MismatchError && spec_wiped(
                *final(self),
            )),
            encrypted_response.session_id == Some(old(self).id) ==> {
                let tag = spec_response_tag(
                    *old(self),
                    encrypted_response.code,
                    encrypted_response.data@,
                );
                &&& (encrypted_response.mac->0@ != tag.take(MAC_SIZE as int) ==> (r matches Err(e)
                    && e.kind == SessionErrorKind::VerifyFailed && spec_wiped(*final(self))))
                &&& (encrypted_response.mac->0@ == tag.take(MAC_SIZE as int) ==> {
                    let plaintext_opt = spec_cbc_decrypt(
                        old(self).enc_key@,
                        spec_icv(old(self).enc_key@, old(self).counter),
                        encrypted_response.data@,
                    );
                    &&& final(self).counter == old(self).counter + 1
                    &&& (plaintext_opt is None ==> (r matches Err(e) && e.kind
                        == SessionErrorKind::ProtocolError && spec_wiped(*final(self))))
                    &&& (plaintext_opt matches Some(pt) ==> {
                        &&& (!crate::message::spec_response_frame_ok(pt) ==> (r matches Err(e)
                            && e.kind == SessionErrorKind::ProtocolError && spec_wiped(
                            *final(self),
                        )))
                        &&& (crate::message::spec_response_frame_ok(pt) ==> (r matches Ok(m) && {
                            &&& spec_same_keys(*old(self), *final(self))
                            &&& final(self).security_level == old(self).security_level
                            &&& final(self).mac_chaining_value@ == old(self).mac_chaining_value@
                            &&& m.code == ResponseCode::spec_from_u8(pt[0])->0
                            &&& m.session_id == encrypted_response.session_id
                            &&& m.data@ == crate::message::spec_response_frame_data(pt)
                            &&& (crate::message::spec_has_rmac(m.code) ==> (m.mac matches Some(t)
                                && t@ == pt.subrange(pt.len() - 8, pt.len() as int)))
                            &&& (!crate::message::spec_has_rmac(m.code) ==> m.mac is None)
                        }))
                    })
                })
            },
    {
        let icv = compute_icv(&self.enc_key, self.counter);
        match self.verify_response_mac(&encrypted_response) {
            Ok(()) => {},
            Err(e) => {
                return Err(e);
            },
        }
        let plaintext = match crypto::cbc_decrypt_iso7816(
            self.enc_key.as_slice(),
            icv.as_slice(),
            encrypted_response.data.as_slice(),
        ) {
            Some(p) => p,
            None => {
                self.terminate();
                return Err(
                    Error::new(
                        SessionErrorKind::ProtocolError,
                        Some(String::from_str("error decrypting response")),
                    ),
                );
            },
        };
        let mut decrypted_response = match ResponseMessage::parse(plaintext) {
            Ok(m) => m,
            Err(e) => {
                self.terminate();
                return Err(e);
            },
        };
        decrypted_response.session_id = encrypted_response.session_id;
        Ok(decrypted_response)
    }

    /// Verify a host authentication message (the device side of the
    /// handshake): check the host cryptogram in constant time and the C-MAC;
    /// on success the channel becomes authenticated with counter 1 and an
    /// empty success response is returned.
    pub fn verify_authenticate_session(&mut self, command: &CommandMessage) -> (r: Result<
        ResponseMessage,
        SessionError,
    >)
        requires
            old(self).wf(),
            old(self).security_level == SecurityLevel::NotAuthenticated,
            old(self).mac_chaining_value@ == zero_bytes(16),
            command.session_id == Some(old(self).id) ==> command.mac is Some,
            command.data@.len() + 9 <= usize::MAX,
        ensures
            final(self).wf(),
            spec_same_identity(*old(self), *final(self)),
            r is Err ==> final(self).counter == old(self).counter,
            command.data@.len() != CRYPTOGRAM_SIZE ==> (r matches Err(e) && e.kind
                == SessionErrorKind::ProtocolError && spec_wiped(*final(self))),
            (command.data@.len() == CRYPTOGRAM_SIZE && command.data@ != old(self).spec_cryptogram(
                1,
            )) ==> (r matches Err(e) && e.kind == SessionErrorKind::VerifyFailed && spec_wiped(
                *final(self),
            )),
            (command.data@.len() == CRYPTOGRAM_SIZE && command.data@ == old(self).spec_cryptogram(
                1,
            )) ==> {
                let tag = spec_command_tag(*old(self), command.command_type, command.data@);
                &&& (command.session_id is None ==> (r matches Err(e) && e.kind
                    == SessionErrorKind::ProtocolError && spec_wiped(*final(self))))
                &&& ((command.session_id matches Some(sid) && sid != old(self).id) ==> (
                r matches Err(e) && e.kind == SessionErrorKind::MismatchError && spec_wiped(
                    *final(self),
                )))
                &&& (command.session_id == Some(old(self).id) ==> {
                    &&& (command.mac->0@ != tag.take(MAC_SIZE as int) ==> (r matches Err(e)
                        && e.kind == SessionErrorKind::VerifyFailed && spec_wiped(*final(self))))
                    &&& (command.mac->0@ == tag.take(MAC_SIZE as int) ==> (r matches Ok(m) && {
                        &&& m.code == ResponseCode::Success(CommandCode::AuthSession)
                        &&& m.session_id is None
                        &&& m.data@.len() == 0
                        &&& m.mac is None
                        &&& final(self).security_level == SecurityLevel::Authenticated
                        &&& final(self).counter == 1
                        &&& final(self).mac_chaining_value@ == tag
                        &&& spec_same_keys(*old(self), *final(self))
                    }))
                })
            },
    {
        if command.data.len() != CRYPTOGRAM_SIZE {
            self.terminate();
            return Err(
                Error::new(
                    SessionErrorKind::ProtocolError,
                    Some(String::from_str("wrong-length command data")),
                ),
            );
        }
        let expected_host_cryptogram = self.host_cryptogram();
        let actual_host_cryptogram = Cryptogram::from_slice(command.data.as_slice());
        if !expected_host_cryptogram.ct_eq(&actual_host_cryptogram) {
            self.terminate();
            return Err(
                Error::new(
                    SessionErrorKind::VerifyFailed,
                    Some(String::from_str("host cryptogram mismatch!")),
                ),
            );
        }
        match self.verify_command_mac(command) {
            Ok(()) => {},
            Err(e) => {
                return Err(e);
            },
        }
        self.security_level = SecurityLevel::Authenticated;
        self.counter = 1;
        Ok(ResponseMessage::success(CommandCode::AuthSession, Vec::new()))
    }

    /// Verify a command MAC (C-MAC) value; on success the full tag becomes
    /// the new chaining value. A command whose session ID is missing or is
    /// not this channel's terminates the channel.
    pub fn verify_command_mac(&mut self, command: &CommandMessage) -> (r: Result<
        (),
        SessionError,
    >)
        requires
            old(self).wf(),
            command.session_id == Some(old(self).id) ==> command.mac is Some,
            command.data@.len() + 9 <= usize::MAX,
        ensures
            final(self).wf(),
            spec_same_identity(*old(self), *final(self)),
            final(self).counter == old(self).counter,
            command.session_id is None ==> (r matches Err(e) && e.kind
                == SessionErrorKind::ProtocolError && spec_wiped(*final(self))),
            (command.session_id matches Some(sid) && sid != old(self).id) ==> (r matches Err(e)
                && e.kind == SessionErrorKind::MismatchError && spec_wiped(*final(self))),
            command.session_id == Some(old(self).id) ==> ({
                let tag = spec_command_tag(*old(self), command.command_type, command.data@);
                &&& (command.mac->0@ == tag.take(MAC_SIZE as int) ==> (r is Ok && {
                    &&& final(self).mac_chaining_value@ == tag
                    &&& final(self).security_level == old(self).security_level
                    &&& spec_same_keys(*old(self), *final(self))
                }))
                &&& (command.mac->0@ != tag.take(MAC_SIZE as int) ==> (r matches Err(e) && e.kind
                    == SessionErrorKind::VerifyFailed && spec_wiped(*final(self))))
            }),
    {
        let session_id = match &command.session_id {
            Some(id) => *id,
            None => {
                self.terminate();
                return Err(
                    Error::new(
                        SessionErrorKind::ProtocolError,
                        Some(String::from_str("no session ID in command")),
                    ),
                );
            },
        };
        if self.id.to_u8() != session_id.to_u8() {
            self.terminate();
            return Err(
                Error::new(
                    SessionErrorKind::MismatchError,
                    Some(String::from_str("unexpected session ID")),
                ),
            );
        }
        let mut mac_input: Vec<u8> = Vec::new();
        mac_input.extend_from_slice(self.mac_chaining_value.as_slice());
        mac_input.push(command.command_type.to_u8());
        let length = command.len();
        write_be16(&mut mac_input, length as u16);
        mac_input.push(self.id.to_u8());
        mac_input.extend_from_slice(command.data.as_slice());
        proof {
            assert(mac_input@ =~= spec_mac_input(
                self.mac_chaining_value@,
                command.command_type.spec_to_u8(),
                (1 + command.data@.len() + MAC_SIZE) as u16,
                self.id.0,
                command.data@,
            ));
        }
        let tag = crypto::cmac_aes128(self.mac_key.as_slice(), mac_input.as_slice());
        if !command.mac.as_ref().unwrap().verify(tag.as_slice()) {
            self.terminate();
            return Err(
                Error::new(
                    SessionErrorKind::VerifyFailed,
                    Some(String::from_str("C-MAC mismatch!")),
                ),
            );
        }
        let mut new_chain: Vec<u8> = Vec::new();
        new_chain.extend_from_slice(tag.as_slice());
        self.mac_chaining_value = new_chain;
        Ok(())
    }

    /// Verify and decrypt a command from the host (the device side): check
    /// the C-MAC (which advances the chaining value), CBC-decrypt the
    /// payload, parse the inner command, and propagate the outer session ID
    /// onto it. Every failure — wrong or missing session ID, MAC mismatch,
    /// undecryptable or unparseable payload — is fatal: the channel
    /// terminates and its keys are wiped.
    pub fn decrypt_command(&mut self, encrypted_command: CommandMessage) -> (r: Result<
        CommandMessage,
        SessionError,
    >)
        requires
            old(self).wf(),
            old(self).security_level == SecurityLevel::Authenticated,
            encrypted_command.session_id == Some(old(self).id) ==> encrypted_command.mac
                is Some,
            encrypted_command.data@.len() + 9 <= usize::MAX,
        ensures
            final(self).wf(),
            spec_same_identity(*old(self), *final(self)),
            final(self).counter == old(self).counter,
            encrypted_command.session_id is None ==> (r matches Err(e) && e.kind
                == SessionErrorKind::ProtocolError && spec_wiped(*final(self))),
            (encrypted_command.session_id matches Some(sid) && sid != old(self).id) ==> (
            r matches Err(e) && e.kind == SessionErrorKind::MismatchError && spec_wiped(
                *final(self),
            )),
            encrypted_command.session_id == Some(old(self).id) ==> ({
                let tag = spec_command_tag(
                    *old(self),
                    encrypted_command.command_type,
                    encrypted_command.data@,
                );
                &&& (encrypted_command.mac->0@ != tag.take(MAC_SIZE as int) ==> (r matches Err(e)
                    && e.kind == SessionErrorKind::VerifyFailed && spec_wiped(*final(self))))
                &&& (encrypted_command.mac->0@ == tag.take(MAC_SIZE as int) ==> {
                    let plaintext_opt = spec_cbc_decrypt(
                        old(self).enc_key@,
                        spec_icv(old(self).enc_key@, old(self).counter),
                        encrypted_command.data@,
                    );
                    &&& (plaintext_opt is None ==> (r matches Err(e) && e.kind
                        == SessionErrorKind::ProtocolError && spec_wiped(*final(self))))
                    &&& (plaintext_opt matches Some(pt) ==> {
                        &&& (!crate::message::spec_command_frame_ok(pt) ==> (r matches Err(e)
                            && e.kind == SessionErrorKind::ProtocolError && spec_wiped(
                            *final(self),
                        )))
                        &&& (crate::message::spec_command_frame_ok(pt) ==> (r matches Ok(m) && {
                            &&& spec_same_keys(*old(self), *final(self))
                            &&& final(self).security_level == old(self).security_level
                            &&& final(self).mac_chaining_value@ == tag
                            &&& m.command_type == CommandCode::spec_from_u8(pt[0])->0
                            &&& m.session_id == encrypted_command.session_id
                            &&& m.data@ == crate::message::spec_command_frame_data(pt)
                        }))
                    })
                })
            }),
    {
        let icv = compute_icv(&self.enc_key, self.counter);
        match self.verify_command_mac(&encrypted_command) {
            Ok(()) => {},
            Err(e) => {
                return Err(e);
            },
        }
        let plaintext = match crypto::cbc_decrypt_iso7816(
            self.enc_key.as_slice(),
            icv.as_slice(),
            encrypted_command.data.as_slice(),
        ) {
            Some(p) => p,
            None => {
                self.terminate();
                return Err(
                    Error::new(
                        SessionErrorKind::ProtocolError,
                        Some(String::from_str("error decrypting command")),
                    ),
                );
            },
        };
        let mut decrypted_command = match CommandMessage::parse(plaintext) {
            Ok(m) => m,
            Err(e) => {
                self.terminate();
                return Err(e);
            },
        };
        decrypted_command.session_id = encrypted_command.session_id;
        Ok(decrypted_command)
    }

    /// Encrypt a response to be sent back to the host: serialize it,
    /// CBC-encrypt under S-ENC with the counter-derived ICV, and wrap the
    /// ciphertext in an authenticated `SessionMessage` success response.
    pub fn encrypt_response(&mut self, response: ResponseMessage) -> (r: Result<
        ResponseMessage,
        SessionError,
    >)
        requires
            old(self).wf(),
            old(self).security_level == SecurityLevel::Authenticated,
            old(self).counter < u32::MAX,
            response.wf(),
        ensures
            final(self).wf(),
            spec_same_identity(*old(self), *final(self)),
            final(self).counter == old(self).counter + 1,
            final(self).security_level == old(self).security_level,
            spec_same_keys(*old(self), *final(self)),
            final(self).mac_chaining_value@ == old(self).mac_chaining_value@,
            r matches Ok(m) && {
                let ciphertext = spec_encrypted_data(*old(self), response.spec_serialized());
                let tag = spec_response_tag(
                    *old(self),
                    ResponseCode::Success(CommandCode::SessionMessage),
                    ciphertext,
                );
                &&& spec_cbc_decrypt(
                    old(self).enc_key@,
                    spec_icv(old(self).enc_key@, old(self).counter),
                    ciphertext,
                ) == Some(response.spec_serialized())
                &&& m.code == ResponseCode::Success(CommandCode::SessionMessage)
                &&& m.session_id == Some(old(self).id)
                &&& m.data@ == ciphertext
                &&& m.mac matches Some(t) && t@ == tag.take(MAC_SIZE as int)
                &&& (ciphertext.len() <= MAX_MSG_SIZE ==> m.wf())
            },
    {
        let serialized = response.into_vec();
        proof {
            assert(serialized@.len() == 3 + response.spec_len());
        }
        let icv = compute_icv(&self.enc_key, self.counter);
        let ciphertext = crypto::cbc_encrypt_iso7816(
            self.enc_key.as_slice(),
            icv.as_slice(),
            serialized.as_slice(),
        );
        self.response_with_mac(
            ResponseCode::Success(CommandCode::SessionMessage),
            ciphertext,
        )
    }

    /// Compute the MAC for a response message, under S-RMAC. The chaining
    /// value is consumed but not updated; the counter advances.
    pub fn response_with_mac(&mut self, code: ResponseCode, response_data: Vec<u8>) -> (r: Result<
        ResponseMessage,
        SessionError,
    >)
        requires
            old(self).wf(),
            old(self).security_level == SecurityLevel::Authenticated,
            old(self).counter < u32::MAX,
            response_data@.len() + 9 <= usize::MAX,
        ensures
            final(self).wf(),
            spec_same_identity(*old(self), *final(self)),
            final(self).counter == old(self).counter + 1,
            final(self).security_level == old(self).security_level,
            spec_same_keys(*old(self), *final(self)),
            final(self).mac_chaining_value@ == old(self).mac_chaining_value@,
            r matches Ok(m) && {
                let tag = spec_response_tag(*old(self), code, response_data@);
                &&& m.code == code
                &&& m.session_id == Some(old(self).id)
                &&& m.data@ == response_data@
                &&& m.mac matches Some(t) && t@ == tag.take(MAC_SIZE as int) && t@.len()
                    == MAC_SIZE
            },
    {
        let mut mac_input: Vec<u8> = Vec::new();
        mac_input.extend_from_slice(self.mac_chaining_value.as_slice());
        mac_input.push(code.to_u8());
        let length = 1 + response_data.len() + MAC_SIZE;
        write_be16(&mut mac_input, length as u16);
        mac_input.push(self.id.to_u8());
        mac_input.extend_from_slice(response_data.as_slice());
        proof {
            assert(mac_input@ =~= spec_mac_input(
                self.mac_chaining_value@,
                code.spec_to_u8(),
                (1 + response_data@.len() + MAC_SIZE) as u16,
                self.id.0,
                response_data@,
            ));
        }
        let tag = crypto::cmac_aes128(self.rmac_key.as_slice(), mac_input.as_slice());
        self.increment_counter();
        let mac = Mac::from_tag(tag.as_slice());
        Ok(ResponseMessage::new_with_mac(code, self.id, response_data, mac))
    }
}

/// Host and device channels that mirror one another: same identity and key
/// material, equal counters and chaining values, both authenticated.
pub open spec fn spec_paired(host: SecureChannel, device: SecureChannel) -> bool {
    &&& host.wf()
    &&& device.wf()
    &&& host.id == device.id
    &&& spec_same_keys(host, device)
    &&& host.counter == device.counter
    &&& host.mac_chaining_value@ == device.mac_chaining_value@
    &&& host.security_level == SecurityLevel::Authenticated
    &&& device.security_level == SecurityLevel::Authenticated
}

/// Cryptogram computation is symmetric: two channels that hold the same
/// S-MAC key and context derive byte-identical card and host cryptograms.
/// Together with `new`'s postconditions, host and device channels created
/// from the same auth key and challenges hold byte-identical S-ENC, S-MAC
/// and S-RMAC keys and agree on both cryptograms.
pub proof fn lemma_cryptograms_symmetric(host_side: SecureChannel, device_side: SecureChannel)
    requires
        host_side.mac_key@ == device_side.mac_key@,
        host_side.context@ == device_side.context@,
    ensures
        host_side.spec_cryptogram(0) == device_side.spec_cryptogram(0),
        host_side.spec_cryptogram(1) == device_side.spec_cryptogram(1),
{
}

/// Paired channels authenticate and encrypt identically: for any payload
/// they compute the same C-MAC tag, the same R-MAC tag, the same ICV, and
/// the same ciphertext.
pub proof fn lemma_paired_tags_agree(
    host: SecureChannel,
    device: SecureChannel,
    code: CommandCode,
    response_code: ResponseCode,
    data: Seq<u8>,
)
    requires
        spec_paired(host, device),
    ensures
        spec_command_tag(device, code, data) == spec_command_tag(host, code, data),
        spec_response_tag(device, response_code, data) == spec_response_tag(
            host,
            response_code,
            data,
        ),
        spec_icv(device.enc_key@, device.counter) == spec_icv(host.enc_key@, host.counter),
        spec_encrypted_data(device, data) == spec_encrypted_data(host, data),
{
}

/// One command exchange between paired channels round-trips: the encrypted
/// `SessionMessage` the host emits for a well-formed inner command carries
/// exactly the tag the paired device recomputes, so the device's C-MAC
/// check accepts it; and whenever decryption inverts the encryption (which
/// the cipher guarantees of every ciphertext it produced), the plaintext
/// the device recovers is the serialized inner command, which parses back
/// to the inner command's code and payload unchanged.
pub proof fn lemma_command_exchange_round_trips(
    host: SecureChannel,
    device: SecureChannel,
    inner: CommandMessage,
)
    requires
        spec_paired(host, device),
        inner.wf(),
    ensures
        ({
            let ciphertext = spec_encrypted_data(host, inner.spec_serialized());
            let tag = spec_command_tag(host, CommandCode::SessionMessage, ciphertext);
            &&& spec_command_tag(device, CommandCode::SessionMessage, ciphertext) == tag
            &&& (spec_cbc_decrypt(
                device.enc_key@,
                spec_icv(device.enc_key@, device.counter),
                ciphertext,
            ) == Some(inner.spec_serialized()) ==> {
                let pt = inner.spec_serialized();
                &&& crate::message::spec_command_frame_ok(pt)
                &&& CommandCode::spec_from_u8(pt[0]) == Some(inner.command_type)
                &&& crate::message::spec_command_frame_data(pt) == inner.data@
            })
        }),
{
    crate::message::lemma_command_round_trip(inner);
}

/// One response exchange between paired channels round-trips: the encrypted
/// `SessionMessage` response the device emits for a well-formed inner
/// response carries exactly the tag the paired host recomputes, so the
/// host's R-MAC check accepts it; and whenever decryption inverts the
/// encryption, the plaintext the host recovers is the serialized inner
/// response, which parses back to the inner response's code and payload
/// unchanged.
pub proof fn lemma_response_exchange_round_trips(
    host: SecureChannel,
    device: SecureChannel,
    inner: ResponseMessage,
)
    requires
        spec_paired(host, device),
        inner.wf(),
    ensures
        ({
            let ciphertext = spec_encrypted_data(device, inner.spec_serialized());
            let tag = spec_response_tag(
                device,
                ResponseCode::Success(CommandCode::SessionMessage),
                ciphertext,
            );
            &&& spec_response_tag(
                host,
                ResponseCode::Success(CommandCode::SessionMessage),
                ciphertext,
            ) == tag
            &&& (spec_cbc_decrypt(
                host.enc_key@,
                spec_icv(host.enc_key@, host.counter),
                ciphertext,
            ) == Some(inner.spec_serialized()) ==> {
                let pt = inner.spec_serialized();
                &&& crate::message::spec_response_frame_ok(pt)
                &&& ResponseCode::spec_from_u8(pt[0]) == Some(inner.code)
                &&& crate::message::spec_response_frame_data(pt) == inner.data@
            })
        }),
{
    crate::message::lemma_response_round_trip(inner);
}

/// What one side's postconditions supply about its state across one
/// successful exchange: identity and keys kept, still authenticated, the
/// counter advanced by one, and the chaining value left equal to the
/// exchange's C-MAC tag.
pub open spec fn spec_exchange_step(
    before: SecureChannel,
    after: SecureChannel,
    tag: Seq<u8>,
) -> bool {
    &&& spec_same_identity(before, after)
    &&& spec_same_keys(before, after)
    &&& after.security_level == SecurityLevel::Authenticated
    &&& after.counter == before.counter + 1
    &&& after.mac_chaining_value@ == tag
}

/// A successful exchange leaves the two channels paired with both counters
/// one higher and identical chaining values: the command path sets both
/// chaining values to the same 16-byte tag, and the response path advances
/// each counter without touching the chaining values. The postconditions of
/// the exchange operations supply exactly the hypotheses.
pub proof fn lemma_exchange_preserves_pairing(
    host_before: SecureChannel,
    device_before: SecureChannel,
    host_after: SecureChannel,
    device_after: SecureChannel,
    tag: Seq<u8>,
)
    requires
        spec_paired(host_before, device_before),
        tag.len() == 16,
        spec_exchange_step(host_before, host_after, tag),
        spec_exchange_step(device_before, device_after, tag),
    ensures
        spec_paired(host_after, device_after),
        host_after.mac_chaining_value@ == device_after.mac_chaining_value@,
{
}

/// Over a whole run of successful exchanges, paired channels stay paired:
/// if `hosts` and `devices` list the two sides' states after each of `n`
/// exchanges (with `tags[j]` the C-MAC tag of exchange `j`), then after any
/// prefix of `i` exchanges the sides are still paired, both counters equal
/// the initial counter plus `i`, and the chaining values are identical.
pub proof fn lemma_run_preserves_pairing(
    hosts: Seq<SecureChannel>,
    devices: Seq<SecureChannel>,
    tags: Seq<Seq<u8>>,
    i: int,
)
    requires
        hosts.len() == devices.len(),
        hosts.len() == tags.len() + 1,
        spec_paired(hosts[0], devices[0]),
        forall|j: int|
            0 <= j < tags.len() ==> (#[trigger] tags[j]).len() == 16,
        forall|j: int|
            0 <= j < tags.len() ==> #[trigger] spec_exchange_step(hosts[j], hosts[j + 1], tags[j])
                && spec_exchange_step(devices[j], devices[j + 1], tags[j]),
        0 <= i < hosts.len(),
    ensures
        spec_paired(hosts[i], devices[i]),
        hosts[i].counter == hosts[0].counter + i,
        devices[i].counter == hosts[i].counter,
        hosts[i].mac_chaining_value@ == devices[i].mac_chaining_value@,
    decreases i,
{
    if i > 0 {
        lemma_run_preserves_pairing(hosts, devices, tags, i - 1);
        assert(spec_exchange_step(hosts[i - 1], hosts[i - 1 + 1], tags[i - 1]));
        assert(spec_exchange_step(devices[i - 1], devices[i - 1 + 1], tags[i - 1]));
        assert(hosts[i - 1 + 1] == hosts[i]);
        assert(devices[i - 1 + 1] == devices[i]);
        lemma_exchange_preserves_pairing(
            hosts[i - 1],
            devices[i - 1],
            hosts[i],
            devices[i],
            tags[i - 1],
        );
    }
}

/// A completed handshake pairs the channels: starting from channels that
/// share an ID and key material, both sides end authenticated with counter
/// 1 and the same chaining value, so every later exchange finds them
/// paired.
pub proof fn lemma_handshake_pairs(
    host_before: SecureChannel,
    device_before: SecureChannel,
    host_after: SecureChannel,
    device_after: SecureChannel,
    tag: Seq<u8>,
)
    requires
        host_before.wf(),
        device_before.wf(),
        host_before.id == device_before.id,
        spec_same_keys(host_before, device_before),
        tag.len() == 16,
        spec_same_identity(host_before, host_after),
        spec_same_keys(host_before, host_after),
        host_after.security_level == SecurityLevel::Authenticated,
        host_after.counter == 1,
        host_after.mac_chaining_value@ == tag,
        spec_same_identity(device_before, device_after),
        spec_same_keys(device_before, device_after),
        device_after.security_level == SecurityLevel::Authenticated,
        device_after.counter == 1,
        device_after.mac_chaining_value@ == tag,
    ensures
        spec_paired(host_after, device_after),
{
}

} // verus!
