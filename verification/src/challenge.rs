//! Host and card challenges, the 16-byte KDF context formed from them, and
//! the 8-byte cryptograms exchanged during authentication.

use vstd::prelude::*;

use crate::crypto;

verus! {

/// Size of a challenge in bytes.
pub const CHALLENGE_SIZE: usize = 8;

/// Size of the KDF context (host challenge concatenated with card challenge).
pub const CONTEXT_SIZE: usize = 16;

/// Size of a cryptogram in bytes.
pub const CRYPTOGRAM_SIZE: usize = 8;

/// An 8-byte random challenge; one is generated by the host and one by the
/// card for every session.
#[derive(Clone, Debug)]
pub struct Challenge {
    bytes: Vec<u8>,
}

impl View for Challenge {
    type V = Seq<u8>;

    closed spec fn view(&self) -> Seq<u8> {
        self.bytes@
    }
}

impl Challenge {
    /// Whether this challenge has the right length.
    pub open spec fn wf(&self) -> bool {
        self@.len() == CHALLENGE_SIZE
    }

    /// Create a challenge from an 8-byte slice.
    pub fn from_slice(slice: &[u8]) -> (r: Self)
        requires
            slice@.len() == CHALLENGE_SIZE,
        ensures
            r@ == slice@,
            r.wf(),
    {
        let mut bytes: Vec<u8> = Vec::new();
        bytes.extend_from_slice(slice);
        Challenge { bytes }
    }

    /// Generate a random challenge from the CSPRNG.
    pub fn new() -> (r: Self)
        ensures
            r.wf(),
    {
        Challenge { bytes: crypto::random_bytes_8() }
    }

    /// Borrow the challenge bytes.
    pub fn as_slice(&self) -> (r: &[u8])
        ensures
            r@ == self@,
    {
        self.bytes.as_slice()
    }
}

/// The 16-byte KDF context: host challenge concatenated with card challenge.
/// It feeds both KDF invocations and the cryptograms.
#[derive(Clone, Debug)]
pub struct Context {
    bytes: Vec<u8>,
}

impl View for Context {
    type V = Seq<u8>;

    closed spec fn view(&self) -> Seq<u8> {
        self.bytes@
    }
}

impl Context {
    /// Whether this context has the right length.
    pub open spec fn wf(&self) -> bool {
        self@.len() == CONTEXT_SIZE
    }

    /// Concatenate the host and card challenges into a context.
    pub fn from_challenges(host_challenge: &Challenge, card_challenge: &Challenge) -> (r: Self)
        requires
            host_challenge.wf(),
            card_challenge.wf(),
        ensures
            r@ == host_challenge@ + card_challenge@,
            r.wf(),
    {
        let mut bytes: Vec<u8> = Vec::new();
        bytes.extend_from_slice(host_challenge.as_slice());
        bytes.extend_from_slice(card_challenge.as_slice());
        Context { bytes }
    }

    /// Borrow the context bytes.
    pub fn as_slice(&self) -> (r: &[u8])
        ensures
            r@ == self@,
    {
        self.bytes.as_slice()
    }
}

/// An 8-byte proof of key possession derived by the KDF and exchanged during
/// the authentication handshake. Compared in constant time.
#[derive(Clone, Debug)]
pub struct Cryptogram {
    bytes: Vec<u8>,
}

impl View for Cryptogram {
    type V = Seq<u8>;

    closed spec fn view(&self) -> Seq<u8> {
        self.bytes@
    }
}

impl Cryptogram {
    /// Whether this cryptogram has the right length.
    pub open spec fn wf(&self) -> bool {
        self@.len() == CRYPTOGRAM_SIZE
    }

    /// Create a cryptogram from an 8-byte slice.
    pub fn from_slice(slice: &[u8]) -> (r: Self)
        requires
            slice@.len() == CRYPTOGRAM_SIZE,
        ensures
            r@ == slice@,
            r.wf(),
    {
        let mut bytes: Vec<u8> = Vec::new();
        bytes.extend_from_slice(slice);
        Cryptogram { bytes }
    }

    /// Borrow the cryptogram bytes.
    pub fn as_slice(&self) -> (r: &[u8])
        ensures
            r@ == self@,
    {
        self.bytes.as_slice()
    }

    /// Compare two cryptograms in constant time.
    pub fn ct_eq(&self, other: &Cryptogram) -> (r: bool)
        ensures
            r == (self@ == other@),
    {
        crypto::ct_eq(self.bytes.as_slice(), other.bytes.as_slice())
    }
}

} // verus!
