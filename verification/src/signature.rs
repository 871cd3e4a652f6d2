use crate::hashing::digest_bytes;
use crate::hashing::spec_digest;
use crate::pubkey::Pubkey;
use vstd::prelude::*;

verus! {

/// A signature over a serialized message.
///
/// This is a deterministic stand-in for a real signature scheme, concrete
/// enough that verification is a pure function: a signature records the
/// identifier of the key that produced it and the digest of the bytes it
/// signed, and it verifies against exactly that key and those bytes.
#[derive(Clone, Copy, Debug, PartialEq, Eq, Structural)]
pub struct Signature {
    pub signer: u64,
    pub digest: u64,
}

/// Whether `sig` is a valid signature by `key` over `message`.
pub open spec fn sig_verifies(sig: Signature, key: Pubkey, message: Seq<u8>) -> bool {
    sig.signer == key.id && sig.digest == spec_digest(message)
}

impl Signature {
    /// Checks this signature against a public key and the signed bytes.
    pub fn verify(&self, pubkey: &Pubkey, message_bytes: &[u8]) -> (r: bool)
        ensures
            r == sig_verifies(*self, *pubkey, message_bytes@),
    {
        self.signer == pubkey.id && self.digest == digest_bytes(message_bytes)
    }
}

} // verus!
