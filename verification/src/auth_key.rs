//! The 256-bit authentication key shared between host and device: a 16-byte
//! encryption key (K-ENC) concatenated with a 16-byte MAC key (K-MAC).

use vstd::prelude::*;

use crate::crypto;
use crate::crypto::spec_pbkdf2_hmac_sha256;

verus! {

/// Size of the authentication key in bytes.
pub const AUTH_KEY_SIZE: usize = 32;

/// Number of PBKDF2 iterations used when deriving an auth key from a
/// password.
pub const AUTH_KEY_ITERATIONS: u32 = 10000;

/// The PBKDF2 salt used when deriving an auth key from a password: the ASCII
/// bytes of `Yubico`.
pub open spec fn auth_key_salt() -> Seq<u8> {
    seq![0x59u8, 0x75u8, 0x62u8, 0x69u8, 0x63u8, 0x6fu8]
}

/// A 32-byte authentication key: K-ENC followed by K-MAC.
#[derive(Clone, Debug)]
pub struct AuthKey {
    bytes: Vec<u8>,
}

impl View for AuthKey {
    type V = Seq<u8>;

    closed spec fn view(&self) -> Seq<u8> {
        self.bytes@
    }
}

impl AuthKey {
    /// Whether this key has the right length.
    pub open spec fn wf(&self) -> bool {
        self@.len() == AUTH_KEY_SIZE
    }

    /// The encryption key half (K-ENC): the first 16 bytes.
    pub open spec fn spec_enc_key(&self) -> Seq<u8> {
        self@.subrange(0, 16)
    }

    /// The MAC key half (K-MAC): the last 16 bytes.
    pub open spec fn spec_mac_key(&self) -> Seq<u8> {
        self@.subrange(16, 32)
    }

    /// Create an authentication key from a 32-byte slice.
    pub fn from_slice(slice: &[u8]) -> (r: Self)
        requires
            slice@.len() == AUTH_KEY_SIZE,
        ensures
            r@ == slice@,
            r.wf(),
    {
        let mut bytes: Vec<u8> = Vec::new();
        bytes.extend_from_slice(slice);
        AuthKey { bytes }
    }

    /// Derive an authentication key from a password with
    /// PBKDF2-HMAC-SHA-256, salt `Yubico`, 10000 iterations.
    pub fn derive_from_password(password: &[u8]) -> (r: Self)
        ensures
            r@ == spec_pbkdf2_hmac_sha256(
                password@,
                auth_key_salt(),
                AUTH_KEY_ITERATIONS,
                AUTH_KEY_SIZE,
            ),
            r.wf(),
    {
        let mut salt: Vec<u8> = Vec::new();
        salt.push(0x59);
        salt.push(0x75);
        salt.push(0x62);
        salt.push(0x69);
        salt.push(0x63);
        salt.push(0x6f);
        proof {
            assert(salt@ =~= auth_key_salt());
        }
        let bytes = crypto::pbkdf2_hmac_sha256(
            password,
            salt.as_slice(),
            AUTH_KEY_ITERATIONS,
            AUTH_KEY_SIZE,
        );
        AuthKey { bytes }
    }

    /// Borrow the encryption key half (K-ENC).
    pub fn enc_key(&self) -> (r: &[u8])
        requires
            self.wf(),
        ensures
            r@ == self.spec_enc_key(),
    {
        &self.bytes.as_slice()[0..16]
    }

    /// Borrow the MAC key half (K-MAC).
    pub fn mac_key(&self) -> (r: &[u8])
        requires
            self.wf(),
        ensures
            r@ == self.spec_mac_key(),
    {
        &self.bytes.as_slice()[16..32]
    }
}

} // verus!
