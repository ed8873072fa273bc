//! The hash function behind instance identities.

use vstd::prelude::*;
use blake2b_ref::Blake2bBuilder;

verus! {

/// The 32-byte BLAKE2b digest of `message` under the personalization
/// `personal`, as `blake2b_ref` computes it. The digest is a function of
/// these two byte strings alone; nothing else is assumed of it.
pub uninterp spec fn blake2b_256(personal: Seq<u8>, message: Seq<u8>) -> Seq<u8>;

/// Hashes `message` with `blake2b_ref`: a `Blake2bBuilder` for 32 bytes of
/// output with `personal` as its personalization, one `update` with the
/// whole message, then `finalize`. The contract is not proved: it names
/// the digest and claims that the call returns it. The builder refuses a
/// personalization of more than 16 bytes, which `requires` leaves out.
#[verifier::external_body]
pub(crate) fn blake2b_256_digest(personal: &[u8], message: &[u8]) -> (digest: [u8; 32])
    requires
        personal@.len() <= 16,
    ensures
        digest@ == blake2b_256(personal@, message@),
{
    let mut digest = [0u8; 32];
    let mut hasher = Blake2bBuilder::new(digest.len()).personal(personal).build();
    hasher.update(message);
    hasher.finalize(&mut digest);
    digest
}

} // verus!
