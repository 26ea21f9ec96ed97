//! Keccak-256 and the storage slots that are derived with it.

use crate::primitives::{zero_bytes, Address, Word};
use vstd::prelude::*;

verus! {

/// The Keccak-256 digest of a byte string.
pub uninterp spec fn keccak256(bytes: Seq<u8>) -> Seq<u8>;

/// Calls `alloy::primitives::keccak256`. The contract gives the digest its
/// name and claims nothing else of it.
#[verifier::external_body]
fn keccak(bytes: &Vec<u8>) -> (r: [u8; 32])
    ensures
        r@ == keccak256(bytes@),
{
    alloy::primitives::keccak256(bytes).0
}

/// The 64 bytes that are hashed to find the slot of `holder` in a mapping
/// that sits at slot `position` of a contract: the address, left-padded with
/// zeros to 32 bytes, followed by the position.
pub open spec fn mapping_preimage(holder: Seq<u8>, position: Seq<u8>) -> Seq<u8> {
    zero_bytes(12) + holder + position
}

/// Builds the preimage of a mapping slot.
pub fn mapping_key(holder: &Address, position: &Word) -> (r: Vec<u8>)
    ensures
        r@ == mapping_preimage(holder@, position@),
{
    let mut out: Vec<u8> = Vec::new();
    let mut i: usize = 0;
    while i < 12
        invariant
            i <= 12,
            out@ == zero_bytes(i as nat),
        decreases 12 - i,
    {
        out.push(0u8);
        i += 1;
    }
    let mut j: usize = 0;
    while j < 20
        invariant
            j <= 20,
            holder@.len() == 20,
            out@ == zero_bytes(12) + holder@.subrange(0, j as int),
        decreases 20 - j,
    {
        out.push(holder.bytes[j]);
        j += 1;
    }
    let mut k: usize = 0;
    while k < 32
        invariant
            k <= 32,
            position@.len() == 32,
            out@ == zero_bytes(12) + holder@ + position@.subrange(0, k as int),
        decreases 32 - k,
    {
        out.push(position.bytes[k]);
        k += 1;
    }
    out
}

/// The storage slot that holds the entry of `holder` in a mapping at slot
/// `position`, such as a token's balance table.
pub fn mapping_slot(holder: &Address, position: &Word) -> (r: Word)
    ensures
        r@ == keccak256(mapping_preimage(holder@, position@)),
{
    let key = mapping_key(holder, position);
    Word::new(keccak(&key))
}

} // verus!
