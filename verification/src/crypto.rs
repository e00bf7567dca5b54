//! Trusted wrappers around the cryptographic primitives the secure channel
//! relies on: AES-128-CMAC, the AES-128 block cipher, AES-128-CBC with
//! ISO/IEC 7816-4 padding, PBKDF2-HMAC-SHA-256, constant-time comparison,
//! random challenge bytes, and key wiping.
//!
//! The results of the keyed primitives are functions of their inputs alone;
//! they are named by uninterpreted spec functions, and every contract in the
//! crate speaks of those names.

use vstd::prelude::*;

use aes::Aes128;
use aes::cipher::block_padding::Iso7816;
use aes::cipher::{BlockCipherEncrypt, BlockModeDecrypt, BlockModeEncrypt, KeyInit, KeyIvInit};
use cmac::{Cmac, Mac};
use subtle::ConstantTimeEq;
use zeroize::Zeroize;

use crate::bytes::zero_bytes;

verus! {

/// The AES-128-CMAC tag (16 bytes) of `data` under `key`.
pub uninterp spec fn spec_cmac_aes128(key: Seq<u8>, data: Seq<u8>) -> Seq<u8>;

/// The AES-128 encryption (16 bytes) of a single block under `key`.
pub uninterp spec fn spec_aes128_encrypt_block(key: Seq<u8>, block: Seq<u8>) -> Seq<u8>;

/// The AES-128-CBC encryption of `msg` under `key` and `iv`, after ISO 7816
/// padding to a whole number of blocks.
pub uninterp spec fn spec_cbc_encrypt(key: Seq<u8>, iv: Seq<u8>, msg: Seq<u8>) -> Seq<u8>;

/// The AES-128-CBC decryption of `ct` under `key` and `iv` with the ISO 7816
/// padding stripped, or `None` when the length or padding is invalid.
pub uninterp spec fn spec_cbc_decrypt(key: Seq<u8>, iv: Seq<u8>, ct: Seq<u8>) -> Option<Seq<u8>>;

/// The `out_len`-byte key that PBKDF2-HMAC-SHA-256 derives from a password
/// and salt with the given iteration count.
pub uninterp spec fn spec_pbkdf2_hmac_sha256(
    password: Seq<u8>,
    salt: Seq<u8>,
    rounds: u32,
    out_len: usize,
) -> Seq<u8>;

/// Relies on `cmac::Cmac<aes::Aes128>`: the AES-128-CMAC tag is 16 bytes and
/// depends on the key and message alone.
#[verifier::external_body]
pub(crate) fn cmac_aes128(key: &[u8], data: &[u8]) -> (r: Vec<u8>)
    requires
        key@.len() == 16,
    ensures
        r@ == spec_cmac_aes128(key@, data@),
        r@.len() == 16,
{
    let mut mac = Cmac::<Aes128>::new_from_slice(key).unwrap();
    mac.update(data);
    mac.finalize().into_bytes().to_vec()
}

/// Relies on `aes::Aes128`'s single-block encryption: 16 bytes out, a
/// function of the key and the block alone.
#[verifier::external_body]
pub(crate) fn aes128_encrypt_block(key: &[u8], block: &[u8]) -> (r: Vec<u8>)
    requires
        key@.len() == 16,
        block@.len() == 16,
    ensures
        r@ == spec_aes128_encrypt_block(key@, block@),
        r@.len() == 16,
{
    let cipher = Aes128::new_from_slice(key).unwrap();
    let mut b = aes::Block::default();
    b.copy_from_slice(block);
    cipher.encrypt_block(&mut b);
    b.to_vec()
}

/// Relies on `cbc::Encryptor<aes::Aes128>` with ISO 7816 padding: the
/// ciphertext is a function of key, IV and message; it is the message padded
/// to the next whole block (a full block is added when the message is already
/// a block multiple); and `cbc::Decryptor` inverts it.
#[verifier::external_body]
pub(crate) fn cbc_encrypt_iso7816(key: &[u8], iv: &[u8], msg: &[u8]) -> (r: Vec<u8>)
    requires
        key@.len() == 16,
        iv@.len() == 16,
        msg@.len() + 16 <= usize::MAX,
    ensures
        r@ == spec_cbc_encrypt(key@, iv@, msg@),
        r@.len() == msg@.len() + 16 - (msg@.len() % 16),
        spec_cbc_decrypt(key@, iv@, r@) == Some(msg@),
{
    let enc = cbc::Encryptor::<Aes128>::new_from_slices(key, iv).unwrap();
    enc.encrypt_padded_vec::<Iso7816>(msg)
}

/// Relies on `cbc::Decryptor<aes::Aes128>` with ISO 7816 unpadding, which
/// fails exactly when the ciphertext length is not a whole number of blocks
/// or the decrypted padding is malformed.
#[verifier::external_body]
pub(crate) fn cbc_decrypt_iso7816(key: &[u8], iv: &[u8], ct: &[u8]) -> (r: Option<Vec<u8>>)
    requires
        key@.len() == 16,
        iv@.len() == 16,
    ensures
        match r {
            Some(pt) => spec_cbc_decrypt(key@, iv@, ct@) == Some(pt@),
            None => spec_cbc_decrypt(key@, iv@, ct@) is None,
        },
{
    let dec = cbc::Decryptor::<Aes128>::new_from_slices(key, iv).unwrap();
    match dec.decrypt_padded_vec::<Iso7816>(ct) {
        Ok(pt) => Some(pt),
        Err(_) => None,
    }
}

/// Relies on `pbkdf2::pbkdf2_hmac` with `sha2::Sha256`: the derived key has
/// the requested length and depends on password, salt and rounds alone.
#[verifier::external_body]
pub(crate) fn pbkdf2_hmac_sha256(password: &[u8], salt: &[u8], rounds: u32, out_len: usize) -> (r:
    Vec<u8>)
    requires
        rounds >= 1,
    ensures
        r@ == spec_pbkdf2_hmac_sha256(password@, salt@, rounds, out_len),
        r@.len() == out_len,
{
    let mut out = vec![0u8; out_len];
    pbkdf2::pbkdf2_hmac::<sha2::Sha256>(password, salt, rounds, &mut out);
    out
}

/// Relies on `subtle::ConstantTimeEq` for byte slices, which reports whether
/// the two slices are equal (in constant time for equal lengths).
#[verifier::external_body]
pub(crate) fn ct_eq(a: &[u8], b: &[u8]) -> (r: bool)
    ensures
        r == (a@ == b@),
{
    bool::from(a.ct_eq(b))
}

/// Relies on `rand::random` over the thread-local CSPRNG; nothing is assumed
/// of the bytes beyond their number.
#[verifier::external_body]
pub(crate) fn random_bytes_8() -> (r: Vec<u8>)
    ensures
        r@.len() == 8,
{
    rand::random::<[u8; 8]>().to_vec()
}

/// Relies on `zeroize::Zeroize` for byte slices, which overwrites the buffer
/// with zeros in place.
#[verifier::external_body]
pub(crate) fn wipe(buf: &mut Vec<u8>)
    ensures
        final(buf)@ == zero_bytes(old(buf)@.len() as int),
{
    buf.as_mut_slice().zeroize();
}

} // verus!
