//! Instance identities: a 32-byte value bound to the entry that the
//! creating transaction consumes first.
//!
//! The seed is spent by the transaction that creates the identity, so the
//! same identity cannot be derived a second time.

use vstd::prelude::*;
use crate::error::Error;
use crate::hash::{blake2b_256, blake2b_256_digest};
use crate::layout::{bytes_equal, le_bytes, lemma_le_bytes_injective, lemma_le_bytes_len,
    lemma_pow256_values, push_u32_le};
use crate::types::{OutPoint, OutPointSpec};

verus! {

/// The personalization of the identity hash: the ASCII bytes of
/// `ckb-default-hash`. It keeps identities apart from hashes that other
/// parts of the ledger compute.
pub open spec fn personalization() -> Seq<u8> {
    seq![
        0x63u8, 0x6b, 0x62, 0x2d, 0x64, 0x65, 0x66, 0x61,
        0x75, 0x6c, 0x74, 0x2d, 0x68, 0x61, 0x73, 0x68,
    ]
}

/// The message that is hashed into an identity: the seed's transaction
/// hash, then the seed's index and the output index, each as four
/// little-endian bytes.
pub open spec fn instance_preimage(seed: OutPointSpec, output_index: u32) -> Seq<u8> {
    seed.tx_hash + le_bytes(seed.index as nat, 4) + le_bytes(output_index as nat, 4)
}

/// The identity of the cell created at `output_index` by the transaction
/// whose first input consumes `seed`.
pub open spec fn instance_id(seed: OutPointSpec, output_index: u32) -> Seq<u8> {
    blake2b_256(personalization(), instance_preimage(seed, output_index))
}

/// Whether `type_args` carry the identity `expected`.
pub open spec fn identity_outcome(type_args: Seq<u8>, expected: Seq<u8>) -> Result<(), Error> {
    if type_args == expected {
        Ok(())
    } else {
        Err(Error::InvalidInstanceId)
    }
}

/// The derivation is a function: equal seeds and equal output indices
/// give equal identities.
pub proof fn lemma_instance_id_deterministic(
    seed_a: OutPointSpec,
    index_a: u32,
    seed_b: OutPointSpec,
    index_b: u32,
)
    requires
        seed_a.tx_hash == seed_b.tx_hash,
        seed_a.index == seed_b.index,
        index_a == index_b,
    ensures
        instance_preimage(seed_a, index_a) == instance_preimage(seed_b, index_b),
        instance_id(seed_a, index_a) == instance_id(seed_b, index_b),
{
}

/// The hashed message determines what it was built from: two seeds with
/// 32-byte transaction hashes that differ in any byte of the hash, in the
/// index or in the output index are hashed as different messages.
pub proof fn lemma_instance_preimage_injective(
    seed_a: OutPointSpec,
    index_a: u32,
    seed_b: OutPointSpec,
    index_b: u32,
)
    requires
        seed_a.tx_hash.len() == 32,
        seed_b.tx_hash.len() == 32,
        instance_preimage(seed_a, index_a) == instance_preimage(seed_b, index_b),
    ensures
        seed_a.tx_hash == seed_b.tx_hash,
        seed_a.index == seed_b.index,
        index_a == index_b,
{
    let pa = instance_preimage(seed_a, index_a);
    let pb = instance_preimage(seed_b, index_b);
    lemma_le_bytes_len(seed_a.index as nat, 4);
    lemma_le_bytes_len(seed_b.index as nat, 4);
    lemma_le_bytes_len(index_a as nat, 4);
    lemma_le_bytes_len(index_b as nat, 4);
    assert(pa.subrange(0, 32) =~= seed_a.tx_hash);
    assert(pb.subrange(0, 32) =~= seed_b.tx_hash);
    assert(pa.subrange(32, 36) =~= le_bytes(seed_a.index as nat, 4));
    assert(pb.subrange(32, 36) =~= le_bytes(seed_b.index as nat, 4));
    assert(pa.subrange(36, 40) =~= le_bytes(index_a as nat, 4));
    assert(pb.subrange(36, 40) =~= le_bytes(index_b as nat, 4));
    lemma_pow256_values();
    lemma_le_bytes_injective(seed_a.index as nat, seed_b.index as nat, 4);
    lemma_le_bytes_injective(index_a as nat, index_b as nat, 4);
}

/// The bytes of the personalization.
fn personalization_bytes() -> (tag: [u8; 16])
    ensures
        tag@ == personalization(),
{
    let tag: [u8; 16] = [
        0x63, 0x6b, 0x62, 0x2d, 0x64, 0x65, 0x66, 0x61,
        0x75, 0x6c, 0x74, 0x2d, 0x68, 0x61, 0x73, 0x68,
    ];
    assert(tag@ =~= personalization());
    tag
}

/// Builds the message that is hashed into an identity.
pub fn build_instance_preimage(seed: &OutPoint, output_index: u32) -> (message: Vec<u8>)
    ensures
        message@ == instance_preimage(seed@, output_index),
        message@.len() == 40,
{
    let mut message: Vec<u8> = Vec::new();
    let mut i: usize = 0;
    while i < 32
        invariant
            i <= 32,
            message@ == seed.tx_hash@.subrange(0, i as int),
        decreases 32 - i,
    {
        message.push(seed.tx_hash[i]);
        assert(message@ =~= seed.tx_hash@.subrange(0, i + 1));
        i += 1;
    }
    assert(message@ =~= seed.tx_hash@);
    push_u32_le(&mut message, seed.index);
    push_u32_le(&mut message, output_index);
    proof {
        lemma_le_bytes_len(seed.index as nat, 4);
        lemma_le_bytes_len(output_index as nat, 4);
    }
    message
}

/// Derives the identity of the cell created at `output_index` by the
/// transaction whose first input consumes `seed`.
pub fn calculate_instance_id(seed: &OutPoint, output_index: u32) -> (id: [u8; 32])
    ensures
        id@ == instance_id(seed@, output_index),
{
    let tag = personalization_bytes();
    let message = build_instance_preimage(seed, output_index);
    blake2b_256_digest(tag.as_slice(), message.as_slice())
}

/// Checks that the type args of a created cell are the identity expected
/// of it.
pub fn verify_instance_id(type_args: &[u8], expected: &[u8; 32]) -> (r: Result<(), Error>)
    ensures
        r == identity_outcome(type_args@, expected@),
{
    if bytes_equal(type_args, expected.as_slice()) {
        Ok(())
    } else {
        Err(Error::InvalidInstanceId)
    }
}

} // verus!
