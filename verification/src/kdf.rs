//! The SCP03 key derivation function: one AES-128-CMAC invocation over a
//! fixed 16-byte data-derivation block followed by the 16-byte context.

use vstd::prelude::*;

use crate::bytes::zero_bytes;
use crate::challenge::Context;
use crate::crypto;
use crate::crypto::spec_cmac_aes128;

verus! {

/// The fixed 16-byte data-derivation block for a label: eleven zero bytes,
/// the label byte, a zero separator, the output bit length (128) big-endian,
/// and a one-block counter.
pub open spec fn spec_kdf_block(label: u8) -> Seq<u8> {
    zero_bytes(11) + seq![label, 0x00u8, 0x00u8, 0x80u8, 0x01u8]
}

/// The 16-byte SCP03 KDF output for a parent key, label, and context.
pub open spec fn spec_kdf(parent_key: Seq<u8>, label: u8, context: Seq<u8>) -> Seq<u8> {
    spec_cmac_aes128(parent_key, spec_kdf_block(label) + context)
}

/// Compute the 16-byte SCP03 KDF output under `parent_key` for the given
/// derivation label and context.
pub fn derive(parent_key: &[u8], derivation_constant: u8, context: &Context) -> (r: Vec<u8>)
    requires
        parent_key@.len() == 16,
        context.wf(),
    ensures
        r@ == spec_kdf(parent_key@, derivation_constant, context@),
        r@.len() == 16,
{
    let mut message: Vec<u8> = Vec::new();
    crate::bytes::write_zeros(&mut message, 11);
    message.push(derivation_constant);
    message.push(0x00);
    message.push(0x00);
    message.push(0x80);
    message.push(0x01);
    message.extend_from_slice(context.as_slice());
    proof {
        assert(message@ =~= spec_kdf_block(derivation_constant) + context@);
    }
    crypto::cmac_aes128(parent_key, message.as_slice())
}

} // verus!
