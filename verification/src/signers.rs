use crate::hashing::digest_bytes;
use crate::pubkey::Pubkey;
use crate::signature::sig_verifies;
use crate::signature::Signature;
use vstd::prelude::*;

verus! {

/// A failure of the signing constructor or of a signer set.
#[derive(Clone, Debug, PartialEq, Eq)]
pub enum SignerError {
    /// A caller-supplied input is malformed; the note says which.
    InvalidInput(String),
    /// More signers were supplied than the message requires.
    TooManySigners,
    /// Fewer signers were supplied than the message requires.
    NotEnoughSigners,
    /// The supplied signer set does not cover the required signer keys.
    KeypairPubkeyMismatch,
}

/// A set of signing identities, in a caller-chosen order.
///
/// An implementation reports the public key of each identity and signs a
/// serialized message, producing one signature per identity in the set's
/// own order. Both calls may fail with the implementation's own error; when
/// they succeed, they are answerable to the set's public keys: `try_pubkeys`
/// returns exactly those keys, and the signature at index `i` of
/// `try_sign_message`'s output verifies against the key at index `i`.
pub trait Signers {
    /// The public keys of the signing identities, in the set's order.
    spec fn signer_pubkeys(&self) -> Seq<Pubkey>;

    /// Returns the public key of each signing identity, in the set's order.
    fn try_pubkeys(&self) -> (r: Result<Vec<Pubkey>, SignerError>)
        ensures
            r matches Ok(keys) ==> keys@ == self.signer_pubkeys(),
    ;

    /// Signs `message` once per identity, in the set's order.
    fn try_sign_message(&self, message: &[u8]) -> (r: Result<Vec<Signature>, SignerError>)
        ensures
            r matches Ok(sigs) ==> {
                &&& sigs@.len() == self.signer_pubkeys().len()
                &&& forall|i: int|
                    0 <= i < sigs@.len() ==> sig_verifies(
                        #[trigger] sigs@[i],
                        self.signer_pubkeys()[i],
                        message@,
                    )
            },
    ;
}

/// A signing identity: a secret together with the public key derived from
/// it. The derivation is the deterministic stand-in scheme of
/// [`crate::signature::Signature`]: the public key carries the same
/// identifier as the secret.
#[derive(Clone, Copy, Debug, PartialEq, Eq, Structural)]
pub struct Keypair {
    pub secret: u64,
}

impl Keypair {
    /// The public key of this identity.
    pub open spec fn spec_pubkey(&self) -> Pubkey {
        Pubkey { id: self.secret }
    }

    pub fn new(secret: u64) -> (r: Keypair)
        ensures
            r == (Keypair { secret }),
    {
        Keypair { secret }
    }

    /// Returns the public key of this identity.
    pub fn pubkey(&self) -> (r: Pubkey)
        ensures
            r == self.spec_pubkey(),
    {
        Pubkey { id: self.secret }
    }

    /// Signs `message` with this identity.
    pub fn sign_message(&self, message: &[u8]) -> (s: Signature)
        ensures
            sig_verifies(s, self.spec_pubkey(), message@),
    {
        Signature { signer: self.secret, digest: digest_bytes(message) }
    }
}

/// An ordered set of keypairs, signing in list order.
#[derive(Clone, Debug, PartialEq, Eq)]
pub struct KeypairSet {
    pub keypairs: Vec<Keypair>,
}

impl KeypairSet {
    pub fn new(keypairs: Vec<Keypair>) -> (r: KeypairSet)
        ensures
            r.keypairs@ == keypairs@,
    {
        KeypairSet { keypairs }
    }
}

impl Signers for KeypairSet {
    open spec fn signer_pubkeys(&self) -> Seq<Pubkey> {
        self.keypairs@.map_values(|keypair: Keypair| keypair.spec_pubkey())
    }

    fn try_pubkeys(&self) -> (r: Result<Vec<Pubkey>, SignerError>) {
        let mut keys: Vec<Pubkey> = Vec::new();
        let mut i: usize = 0;
        while i < self.keypairs.len()
            invariant
                i <= self.keypairs@.len(),
                keys@ == self.keypairs@.take(i as int).map_values(
                    |keypair: Keypair| keypair.spec_pubkey(),
                ),
            decreases self.keypairs@.len() - i,
        {
            keys.push(self.keypairs[i].pubkey());
            proof {
                assert(self.keypairs@.take(i + 1 as int) =~= self.keypairs@.take(i as int).push(
                    self.keypairs@[i as int],
                ));
            }
            i = i + 1;
        }
        proof {
            assert(self.keypairs@.take(self.keypairs@.len() as int) =~= self.keypairs@);
        }
        Ok(keys)
    }

    fn try_sign_message(&self, message: &[u8]) -> (r: Result<Vec<Signature>, SignerError>) {
        let mut sigs: Vec<Signature> = Vec::new();
        let mut i: usize = 0;
        while i < self.keypairs.len()
            invariant
                i <= self.keypairs@.len(),
                sigs@.len() == i,
                forall|k: int|
                    0 <= k < i ==> sig_verifies(
                        #[trigger] sigs@[k],
                        self.keypairs@[k].spec_pubkey(),
                        message@,
                    ),
            decreases self.keypairs@.len() - i,
        {
            sigs.push(self.keypairs[i].sign_message(message));
            i = i + 1;
        }
        Ok(sigs)
    }
}

} // verus!
