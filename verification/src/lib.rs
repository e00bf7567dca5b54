//! Client-side core of the YubiHSM 2 command protocol: SCP03 secure-channel
//! engine (session key derivation, mutual authentication, per-message
//! AES-128-CBC encryption with chained AES-128-CMAC authentication) together
//! with the command/response APDU framing, error taxonomy, and the small
//! byte-tagged enumerations the protocol exchanges.
//!
//! Transports (USB or HTTP) deliver opaque byte frames and live outside this
//! crate; the cryptographic primitives are supplied by the RustCrypto crates
//! behind narrow, explicitly trusted wrappers in the `crypto` module.

pub mod audit;
pub mod auth_key;
pub mod bytes;
pub mod challenge;
pub mod codes;
pub mod crypto;
pub mod domains;
pub mod error;
pub mod get_logs;
pub mod hmac;
pub mod kdf;
pub mod mac;
pub mod message;
pub mod securechannel;
pub mod session;
pub mod session_id;
