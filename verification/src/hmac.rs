//! HMAC tags computed by the device over caller-supplied data.

use vstd::prelude::*;

verus! {

/// An HMAC tag returned by the device's data-authentication command.
#[derive(Clone, Debug)]
pub struct HMACTag(pub Vec<u8>);

impl View for HMACTag {
    type V = Seq<u8>;

    open spec fn view(&self) -> Seq<u8> {
        self.0@
    }
}

impl HMACTag {
    /// Create a new HMAC tag from its bytes.
    pub fn new(vec: Vec<u8>) -> (r: HMACTag)
        ensures
            r@ == vec@,
    {
        HMACTag(vec)
    }

    /// Unwrap the inner byte vector.
    pub fn into_vec(self) -> (r: Vec<u8>)
        ensures
            r@ == self@,
    {
        self.0
    }

    /// Get the length of the tag.
    pub fn len(&self) -> (r: usize)
        ensures
            r == self@.len(),
    {
        self.0.len()
    }

    /// Get a slice of the inner byte vector.
    pub fn as_slice(&self) -> (r: &[u8])
        ensures
            r@ == self@,
    {
        self.0.as_slice()
    }
}

} // verus!
