//! Batch hashing of serialized events. Hardware-accelerated paths live
//! outside the verified core and fall back to this scalar one.

use vstd::prelude::*;

verus! {

/// Why batch processing fails.
#[derive(Clone, Copy, Debug, PartialEq, Eq, Structural)]
pub enum SimdError {
    NotSupported,
    InvalidData,
}

/// The 64-bit digest of a byte string; a function of the input alone.
pub uninterp spec fn seahash_of(data: Seq<u8>) -> u64;

/// Relies on `seahash::hash`: a deterministic digest of the input bytes
/// alone (the unseeded variant uses fixed keys).
#[verifier::external_body]
fn seahash_bytes(data: &[u8]) -> (r: u64)
    ensures
        r == seahash_of(data@),
{
    seahash::hash(data)
}

/// Hashes a batch of serialized events: one digest per input blob, in
/// order.
pub fn hash_event_blobs(blobs: &Vec<Vec<u8>>) -> (r: Vec<u64>)
    ensures
        r@.len() == blobs@.len(),
        forall|i: int| 0 <= i < r@.len() ==> r@[i] == seahash_of(blobs@[i]@),
{
    let mut r: Vec<u64> = Vec::new();
    let mut i: usize = 0;
    while i < blobs.len()
        invariant
            0 <= i <= blobs@.len(),
            r@.len() == i,
            forall|k: int| 0 <= k < i ==> r@[k] == seahash_of(blobs@[k]@),
        decreases blobs@.len() - i,
    {
        r.push(seahash_bytes(blobs[i].as_slice()));
        i += 1;
    }
    r
}

} // verus!
