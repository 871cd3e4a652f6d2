use vstd::prelude::*;

verus! {

/// A public key identifying an account.
///
/// Keys are compared by value: the construction algorithm matches supplied
/// signer keys against the message's account keys by equality, and the
/// positional signature contract is stated over key values.
#[derive(Clone, Copy, Debug, PartialEq, Eq, Structural, Hash)]
pub struct Pubkey {
    pub id: u64,
}

impl Pubkey {
    pub fn new(id: u64) -> (r: Pubkey)
        ensures
            r == (Pubkey { id }),
    {
        Pubkey { id }
    }
}

} // verus!
