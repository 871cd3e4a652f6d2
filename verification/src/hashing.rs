use vstd::prelude::*;

verus! {

/// Seed of the byte digest (the FNV-1a offset basis).
pub const DIGEST_SEED: u64 = 0xcbf29ce484222325;

/// Multiplier of the byte digest (the FNV-1a prime).
pub const DIGEST_PRIME: u64 = 0x100000001b3;

/// A content hash of a serialized message.
///
/// The hash identifies a transaction by its message bytes alone; it is a
/// deterministic function of those bytes and of nothing else.
#[derive(Clone, Copy, Debug, PartialEq, Eq, Structural)]
pub struct MessageHash {
    pub value: u64,
}

/// One step of the digest: fold the next byte into the accumulator.
pub open spec fn digest_step(acc: u64, byte: u8) -> u64 {
    (acc ^ (byte as u64)).wrapping_mul(DIGEST_PRIME)
}

/// The digest of a byte sequence: the FNV-1a fold over its bytes.
pub open spec fn spec_digest(bytes: Seq<u8>) -> u64
    decreases bytes.len(),
{
    if bytes.len() == 0 {
        DIGEST_SEED
    } else {
        digest_step(spec_digest(bytes.drop_last()), bytes.last())
    }
}

/// Computes the digest of the given bytes.
pub fn digest_bytes(bytes: &[u8]) -> (r: u64)
    ensures
        r == spec_digest(bytes@),
{
    let mut acc: u64 = DIGEST_SEED;
    let mut i: usize = 0;
    while i < bytes.len()
        invariant
            i <= bytes@.len(),
            acc == spec_digest(bytes@.take(i as int)),
        decreases bytes@.len() - i,
    {
        acc = (acc ^ (bytes[i] as u64)).wrapping_mul(DIGEST_PRIME);
        proof {
            assert(bytes@.take(i + 1 as int).drop_last() =~= bytes@.take(i as int));
            assert(bytes@.take(i + 1 as int).last() == bytes@[i as int]);
        }
        i = i + 1;
    }
    proof {
        assert(bytes@.take(bytes@.len() as int) =~= bytes@);
    }
    acc
}

} // verus!
