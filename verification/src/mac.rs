//! Truncated message authentication tags: the 8-byte prefix of a 16-byte
//! AES-128-CMAC output, carried in authenticated commands and responses.

use vstd::prelude::*;

use crate::crypto;

verus! {

/// Size of a truncated MAC on the wire, in bytes.
pub const MAC_SIZE: usize = 8;

/// An 8-byte truncated CMAC tag.
#[derive(Clone, Debug)]
pub struct Mac {
    bytes: Vec<u8>,
}

impl View for Mac {
    type V = Seq<u8>;

    closed spec fn view(&self) -> Seq<u8> {
        self.bytes@
    }
}

impl Mac {
    /// Whether this tag has the right length.
    pub open spec fn wf(&self) -> bool {
        self@.len() == MAC_SIZE
    }

    /// Create a tag from an 8-byte slice.
    pub fn from_slice(slice: &[u8]) -> (r: Self)
        requires
            slice@.len() == MAC_SIZE,
        ensures
            r@ == slice@,
            r.wf(),
    {
        let mut bytes: Vec<u8> = Vec::new();
        bytes.extend_from_slice(slice);
        Mac { bytes }
    }

    /// Truncate a full 16-byte CMAC output to a wire tag.
    pub fn from_tag(tag: &[u8]) -> (r: Self)
        requires
            tag@.len() == 16,
        ensures
            r@ == tag@.subrange(0, MAC_SIZE as int),
            r.wf(),
    {
        let mut bytes: Vec<u8> = Vec::new();
        bytes.extend_from_slice(&tag[0..MAC_SIZE]);
        Mac { bytes }
    }

    /// Borrow the tag bytes.
    pub fn as_slice(&self) -> (r: &[u8])
        ensures
            r@ == self@,
    {
        self.bytes.as_slice()
    }

    /// Compare this tag against the truncation of a full 16-byte CMAC output,
    /// in constant time.
    pub fn verify(&self, tag: &[u8]) -> (r: bool)
        requires
            tag@.len() == 16,
        ensures
            r == (self@ == tag@.subrange(0, MAC_SIZE as int)),
    {
        crypto::ct_eq(self.bytes.as_slice(), &tag[0..MAC_SIZE])
    }
}

} // verus!
