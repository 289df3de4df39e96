//! The source of nonces.

use vstd::prelude::*;

verus! {

/// The marks that every nonce carries: the high half of byte 6 says
/// version four, the two highest bits of byte 8 say the standard variant.
pub open spec fn is_random_uuid(nonce: Seq<u8>) -> bool {
    &&& nonce.len() == 16
    &&& nonce[6] & 0xf0 == 0x40
    &&& nonce[8] & 0xc0 == 0x80
}

/// Draws a fresh 16-byte correlation token for a probe.
///
/// Calls `uuid::Uuid::new_v4` and hands out the bytes of the identifier it
/// made, as `Uuid::into_bytes` gives them. The identifier is random, so two
/// calls need not agree and nothing is claimed of the random bits. What is
/// claimed is what `new_v4` sets on every identifier: the version and the
/// variant marks. `new_v4` panics if the system has no random bytes to
/// give.
#[verifier::external_body]
pub fn generate_nonce() -> (nonce: [u8; 16])
    ensures
        is_random_uuid(nonce@),
{
    uuid::Uuid::new_v4().into_bytes()
}

} // verus!
