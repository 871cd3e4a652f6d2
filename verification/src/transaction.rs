use crate::hashing::spec_digest;
use crate::hashing::MessageHash;
use crate::message::Message;
use crate::message::MessageHeader;
use crate::message::VersionedMessage;
use crate::pubkey::Pubkey;
use crate::sanitize::SanitizeError;
use crate::signature::sig_verifies;
use crate::signature::Signature;
use crate::signers::SignerError;
use crate::signers::Signers;
use vstd::prelude::*;
use vstd::slice::slice_index_get;
use vstd::slice::slice_subrange;
use vstd::string::StringExecFns;

verus! {

/// The tag of the legacy message shape.
#[derive(Clone, Copy, Debug, PartialEq, Eq, Structural)]
pub enum Legacy {
    Legacy,
}

/// The version of a transaction: the legacy marker, or a numbered version.
/// The legacy marker and version number 0 are distinct tags, even though
/// both stand before a message that requires signatures the same way.
#[derive(Clone, Copy, Debug, PartialEq, Eq, Structural)]
pub enum TransactionVersion {
    Legacy(Legacy),
    Number(u8),
}

/// A verification failure of a whole transaction.
#[derive(Clone, Copy, Debug, PartialEq, Eq, Structural)]
pub enum TransactionError {
    /// At least one signature did not verify against its account key.
    SignatureFailure,
}

/// A legacy (unversioned) transaction: signatures paired with a legacy
/// message.
#[derive(Clone, Debug, PartialEq, Eq)]
pub struct Transaction {
    pub signatures: Vec<Signature>,
    pub message: Message,
}

/// An atomic transaction: an ordered list of signatures paired with one
/// versioned message.
///
/// The signature at index `i` is interpreted as the signature of the
/// account key at index `i` of the message's static account keys, for every
/// `i` below the signature count. Signatures are matched by position, never
/// by content.
#[derive(Clone, Debug, PartialEq, Eq)]
pub struct VersionedTransaction {
    /// List of signatures.
    pub signatures: Vec<Signature>,
    /// Message to sign.
    pub message: VersionedMessage,
}

/// The required-signer prefix of a message: the leading account keys that
/// must each have a signature.
pub open spec fn spec_expected_signer_keys(message: VersionedMessage) -> Seq<Pubkey> {
    message.spec_static_account_keys().take(message.spec_num_required_signatures())
}

/// Whether every key of `expected` occurs somewhere in `supplied`.
pub open spec fn spec_covers(expected: Seq<Pubkey>, supplied: Seq<Pubkey>) -> bool {
    forall|i: int| 0 <= i < expected.len() ==> supplied.contains(#[trigger] expected[i])
}

/// Whether `j` is the position of the leftmost occurrence of `key` in
/// `supplied`.
pub open spec fn spec_is_first_match(key: Pubkey, supplied: Seq<Pubkey>, j: int) -> bool {
    &&& 0 <= j < supplied.len()
    &&& supplied[j] == key
    &&& forall|k: int| 0 <= k < j ==> supplied[k] != key
}

/// The per-index verification results of `sigs` against `keys` over
/// `message`: one boolean per index of the shorter of the two lists.
pub open spec fn spec_verify_results_over(
    sigs: Seq<Signature>,
    keys: Seq<Pubkey>,
    message: Seq<u8>,
) -> Seq<bool> {
    Seq::new(
        if sigs.len() <= keys.len() {
            sigs.len()
        } else {
            keys.len()
        },
        |i: int| sig_verifies(sigs[i], keys[i], message),
    )
}

/// The versioned transaction that wraps a legacy transaction: the same
/// signatures, with the message tagged as legacy.
pub open spec fn spec_upgrade_legacy(transaction: Transaction) -> VersionedTransaction {
    VersionedTransaction {
        signatures: transaction.signatures,
        message: VersionedMessage::Legacy(transaction.message),
    }
}

/// Returns the position of the leftmost occurrence of `target` in `keys`,
/// if there is one.
fn position_of_key(keys: &Vec<Pubkey>, target: &Pubkey) -> (r: Option<usize>)
    ensures
        r matches Some(j) ==> spec_is_first_match(*target, keys@, j as int),
        (r is Some) <==> keys@.contains(*target),
{
    let mut i: usize = 0;
    while i < keys.len()
        invariant
            i <= keys@.len(),
            forall|k: int| 0 <= k < i ==> keys@[k] != *target,
        decreases keys@.len() - i,
    {
        if keys[i] == *target {
            return Some(i);
        }
        i = i + 1;
    }
    None
}

/// Maps each expected signer key, in order, to the position of its leftmost
/// occurrence among the supplied keys.
///
/// This is the order-reconciliation step of construction: callers may
/// supply signers in any order, while the wire format demands signatures at
/// the positions the message declares. The result says, for each expected
/// position, where among the supplied signers its signature will be found.
pub fn resolve_signature_indexes(expected: &[Pubkey], supplied: &Vec<Pubkey>) -> (r: Result<
    Vec<usize>,
    SignerError,
>)
    ensures
        (r matches Err(e) && e == SignerError::TooManySigners) <==> supplied@.len()
            > expected@.len(),
        (r matches Err(e) && e == SignerError::NotEnoughSigners) <==> supplied@.len()
            < expected@.len(),
        (r matches Err(e) && e == SignerError::KeypairPubkeyMismatch) <==> (supplied@.len()
            == expected@.len() && !spec_covers(expected@, supplied@)),
        (r is Ok) <==> (supplied@.len() == expected@.len() && spec_covers(expected@, supplied@)),
        r matches Ok(indexes) ==> {
            &&& indexes@.len() == expected@.len()
            &&& forall|i: int|
                0 <= i < indexes@.len() ==> #[trigger] spec_is_first_match(
                    expected@[i],
                    supplied@,
                    indexes@[i] as int,
                )
        },
{
    if supplied.len() > expected.len() {
        return Err(SignerError::TooManySigners);
    }
    if supplied.len() < expected.len() {
        return Err(SignerError::NotEnoughSigners);
    }
    let mut indexes: Vec<usize> = Vec::new();
    let mut i: usize = 0;
    while i < expected.len()
        invariant
            supplied@.len() == expected@.len(),
            i <= expected@.len(),
            indexes@.len() == i,
            forall|k: int|
                0 <= k < i ==> #[trigger] spec_is_first_match(
                    expected@[k],
                    supplied@,
                    indexes@[k] as int,
                ),
        decreases expected@.len() - i,
    {
        match position_of_key(supplied, slice_index_get(expected, i)) {
            Some(j) => {
                indexes.push(j);
            },
            None => {
                proof {
                    assert(!supplied@.contains(expected@[i as int]));
                }
                return Err(SignerError::KeypairPubkeyMismatch);
            },
        }
        i = i + 1;
    }
    proof {
        assert forall|k: int| 0 <= k < expected@.len() implies supplied@.contains(
            #[trigger] expected@[k],
        ) by {
            assert(spec_is_first_match(expected@[k], supplied@, indexes@[k] as int));
            assert(supplied@[indexes@[k] as int] == expected@[k]);
        }
    }
    Ok(indexes)
}

/// Picks, for each resolved position, the signature at that position from
/// the signer set's output.
fn select_signatures(indexes: &Vec<usize>, unordered: &Vec<Signature>) -> (r: Result<
    Vec<Signature>,
    SignerError,
>)
    ensures
        (r is Ok) <==> (forall|i: int|
            0 <= i < indexes@.len() ==> (#[trigger] indexes@[i]) < unordered@.len()),
        r matches Ok(sigs) ==> {
            &&& sigs@.len() == indexes@.len()
            &&& forall|i: int|
                0 <= i < sigs@.len() ==> #[trigger] sigs@[i] == unordered@[indexes@[i] as int]
        },
        r matches Err(e) ==> e matches SignerError::InvalidInput(note) && note@
            == "invalid keypairs"@,
{
    let mut sigs: Vec<Signature> = Vec::new();
    let mut i: usize = 0;
    while i < indexes.len()
        invariant
            i <= indexes@.len(),
            sigs@.len() == i,
            forall|k: int| 0 <= k < i ==> (#[trigger] indexes@[k]) < unordered@.len(),
            forall|k: int|
                0 <= k < i ==> #[trigger] sigs@[k] == unordered@[indexes@[k] as int],
        decreases indexes@.len() - i,
    {
        let index = indexes[i];
        if index >= unordered.len() {
            return Err(SignerError::InvalidInput(String::from_str("invalid keypairs")));
        }
        sigs.push(unordered[index]);
        i = i + 1;
    }
    Ok(sigs)
}

impl VersionedTransaction {
    /// The serialized bytes of the embedded message.
    pub open spec fn spec_message_bytes(&self) -> Seq<u8> {
        self.message.spec_serialize()
    }

    /// The per-index verification results of this transaction.
    pub open spec fn spec_verify_results(&self) -> Seq<bool> {
        spec_verify_results_over(
            self.signatures@,
            self.message.spec_static_account_keys(),
            self.spec_message_bytes(),
        )
    }

    /// Whether every verification result of this transaction is true.
    pub open spec fn spec_all_signatures_verify(&self) -> bool {
        forall|i: int|
            0 <= i < self.spec_verify_results().len() ==> #[trigger] self.spec_verify_results()[i]
    }

    /// The positional signature contract: the signature at each index
    /// verifies against the account key at the same index over the
    /// serialized message.
    pub open spec fn spec_signatures_match_prefix(&self) -> bool {
        forall|i: int|
            0 <= i < self.signatures@.len() ==> sig_verifies(
                #[trigger] self.signatures@[i],
                self.message.spec_static_account_keys()[i],
                self.spec_message_bytes(),
            )
    }

    /// Signs a versioned message and, if successful, returns a signed
    /// transaction.
    ///
    /// The supplied signers may come in any order: the constructor resolves
    /// each required signer key of the message to the leftmost supplied
    /// signer with that key, signs the serialized message once over the
    /// whole set, and reorders the signatures to the message-declared
    /// positions. A transaction it returns therefore carries exactly one
    /// signature per required signer, each verifying against the account
    /// key at its own index — whatever order the signers were supplied in.
    pub fn try_new<T: Signers>(message: VersionedMessage, keypairs: &T) -> (r: Result<
        VersionedTransaction,
        SignerError,
    >)
        ensures
            message.spec_static_account_keys().len() < message.spec_num_required_signatures()
                ==> (r matches Err(e) && e matches SignerError::InvalidInput(note) && note@
                == "invalid message"@),
            keypairs.signer_pubkeys().len() != message.spec_num_required_signatures() ==> (
            r is Err),
            (message.spec_static_account_keys().len() >= message.spec_num_required_signatures()
                && !spec_covers(spec_expected_signer_keys(message), keypairs.signer_pubkeys()))
                ==> (r is Err),
            r matches Ok(transaction) ==> {
                &&& transaction.message == message
                &&& message.spec_static_account_keys().len()
                    >= message.spec_num_required_signatures()
                &&& keypairs.signer_pubkeys().len() == message.spec_num_required_signatures()
                &&& spec_covers(spec_expected_signer_keys(message), keypairs.signer_pubkeys())
                &&& transaction.signatures@.len() == message.spec_num_required_signatures()
                &&& transaction.spec_signatures_match_prefix()
            },
    {
        let num_required = message.header().num_required_signatures as usize;
        let static_account_keys = message.static_account_keys();
        if static_account_keys.len() < num_required {
            return Err(SignerError::InvalidInput(String::from_str("invalid message")));
        }

        let signer_keys = match keypairs.try_pubkeys() {
            Ok(keys) => keys,
            Err(e) => {
                return Err(e);
            },
        };
        let expected_signer_keys = slice_subrange(static_account_keys, 0, num_required);
        let ghost expected_seq = expected_signer_keys@;
        let ghost supplied_seq = signer_keys@;

        let signature_indexes = match resolve_signature_indexes(expected_signer_keys, &signer_keys)
        {
            Ok(indexes) => indexes,
            Err(e) => {
                return Err(e);
            },
        };

        let message_data = message.serialize();
        let unordered_signatures = match keypairs.try_sign_message(message_data.as_slice()) {
            Ok(sigs) => sigs,
            Err(e) => {
                return Err(e);
            },
        };
        let signatures = match select_signatures(&signature_indexes, &unordered_signatures) {
            Ok(sigs) => sigs,
            Err(e) => {
                return Err(e);
            },
        };

        let transaction = VersionedTransaction { signatures, message };
        proof {
            let keys = transaction.message.spec_static_account_keys();
            let bytes = transaction.spec_message_bytes();
            assert forall|i: int| 0 <= i < transaction.signatures@.len() implies sig_verifies(
                #[trigger] transaction.signatures@[i],
                keys[i],
                bytes,
            ) by {
                let j = signature_indexes@[i] as int;
                assert(spec_is_first_match(expected_seq[i], supplied_seq, j));
                assert(transaction.signatures@[i] == unordered_signatures@[j]);
                assert(sig_verifies(
                    unordered_signatures@[j],
                    keypairs.signer_pubkeys()[j],
                    message_data@,
                ));
                assert(expected_seq[i] == keys[i]);
            }
        }
        Ok(transaction)
    }

    /// Checks the structural invariants of the transaction: the message's
    /// own invariant, then the signature-count invariants.
    pub fn sanitize(&self, require_static_program_ids: bool) -> (r: Result<(), SanitizeError>)
        ensures
            (r is Ok) <==> (self.message.spec_sanitized() && self.signatures@.len()
                == self.message.spec_num_required_signatures()),
            (r matches Err(e) && e == SanitizeError::InvalidValue) <==> (
            self.message.spec_sanitized() && self.signatures@.len()
                > self.message.spec_num_required_signatures()),
            (r matches Err(e) && e == SanitizeError::IndexOutOfBounds) <==> (
            !self.message.spec_sanitized() || (self.message.spec_sanitized()
                && self.signatures@.len() < self.message.spec_num_required_signatures())),
    {
        match self.message.sanitize(require_static_program_ids) {
            Ok(_) => {},
            Err(e) => {
                return Err(e);
            },
        }
        match self.sanitize_signatures() {
            Ok(_) => {},
            Err(e) => {
                return Err(e);
            },
        }
        Ok(())
    }

    /// Checks the signature-count invariants: the signature count equals
    /// the declared requirement, and signatures never outnumber the static
    /// account keys. Signatures are verified before any dynamically
    /// resolved keys are loaded, so every signer must be among the static
    /// keys only.
    pub(crate) fn sanitize_signatures(&self) -> (r: Result<(), SanitizeError>)
        ensures
            (r is Ok) <==> (self.signatures@.len() == self.message.spec_num_required_signatures()
                && self.signatures@.len() <= self.message.spec_static_account_keys().len()),
            (r matches Err(e) && e == SanitizeError::InvalidValue) <==> self.signatures@.len()
                > self.message.spec_num_required_signatures(),
            (r matches Err(e) && e == SanitizeError::IndexOutOfBounds) <==> (self.signatures@.len()
                < self.message.spec_num_required_signatures() || (self.signatures@.len()
                == self.message.spec_num_required_signatures() && self.signatures@.len()
                > self.message.spec_static_account_keys().len())),
    {
        let num_required_signatures = self.message.header().num_required_signatures as usize;
        if num_required_signatures > self.signatures.len() {
            return Err(SanitizeError::IndexOutOfBounds);
        }
        if num_required_signatures < self.signatures.len() {
            return Err(SanitizeError::InvalidValue);
        }

        if self.signatures.len() > self.message.static_account_keys().len() {
            return Err(SanitizeError::IndexOutOfBounds);
        }

        Ok(())
    }

    /// Returns the version of the transaction.
    pub fn version(&self) -> (r: TransactionVersion)
        ensures
            self.message matches VersionedMessage::Legacy(_) ==> r == TransactionVersion::Legacy(
                Legacy::Legacy,
            ),
            self.message matches VersionedMessage::V0(_) ==> r == TransactionVersion::Number(0u8),
    {
        match &self.message {
            VersionedMessage::Legacy(_) => TransactionVersion::Legacy(Legacy::Legacy),
            VersionedMessage::V0(_) => TransactionVersion::Number(0),
        }
    }

    /// Returns the equivalent legacy transaction if the message is legacy,
    /// and nothing otherwise.
    pub fn into_legacy_transaction(self) -> (r: Option<Transaction>)
        ensures
            self.message matches VersionedMessage::Legacy(message) ==> r matches Some(transaction)
                && transaction == (Transaction { signatures: self.signatures, message }),
            self.message matches VersionedMessage::V0(_) ==> r is None,
    {
        match self.message {
            VersionedMessage::Legacy(message) => Some(
                Transaction { signatures: self.signatures, message },
            ),
            _ => None,
        }
    }

    /// Verifies every signature and hashes the message.
    ///
    /// Fails if any per-index verification result is false; otherwise
    /// returns the content hash of the serialized message bytes, which
    /// depends on the message alone and never on the signatures.
    pub fn verify_and_hash_message(&self) -> (r: Result<MessageHash, TransactionError>)
        ensures
            (r is Ok) <==> self.spec_all_signatures_verify(),
            r matches Ok(h) ==> h == (MessageHash { value: spec_digest(self.spec_message_bytes()) }),
            r matches Err(e) ==> e == TransactionError::SignatureFailure,
    {
        let message_bytes = self.message.serialize();
        let results = self._verify_with_results(message_bytes.as_slice());
        let mut i: usize = 0;
        while i < results.len()
            invariant
                i <= results@.len(),
                results@ == self.spec_verify_results(),
                forall|k: int| 0 <= k < i ==> #[trigger] results@[k],
            decreases results@.len() - i,
        {
            if !results[i] {
                return Err(TransactionError::SignatureFailure);
            }
            i = i + 1;
        }
        Ok(VersionedMessage::hash_raw_message(message_bytes.as_slice()))
    }

    /// Verifies the transaction and returns one result per checked index.
    ///
    /// The check pairs signatures with static account keys by index and is
    /// truncated to the shorter of the two lists; a caller making a trust
    /// decision must have sanitized the transaction first, which rules the
    /// truncation out.
    pub fn verify_with_results(&self) -> (r: Vec<bool>)
        ensures
            r@ == self.spec_verify_results(),
    {
        let message_bytes = self.message.serialize();
        self._verify_with_results(message_bytes.as_slice())
    }

    fn _verify_with_results(&self, message_bytes: &[u8]) -> (r: Vec<bool>)
        ensures
            r@ == spec_verify_results_over(
                self.signatures@,
                self.message.spec_static_account_keys(),
                message_bytes@,
            ),
    {
        let keys = self.message.static_account_keys();
        let n = if self.signatures.len() <= keys.len() {
            self.signatures.len()
        } else {
            keys.len()
        };
        let mut results: Vec<bool> = Vec::new();
        let mut i: usize = 0;
        while i < n
            invariant
                i <= n,
                n == spec_verify_results_over(
                    self.signatures@,
                    self.message.spec_static_account_keys(),
                    message_bytes@,
                ).len(),
                n <= self.signatures@.len(),
                n <= self.message.spec_static_account_keys().len(),
                keys@ == self.message.spec_static_account_keys(),
                results@.len() == i,
                forall|k: int|
                    0 <= k < i ==> #[trigger] results@[k] == sig_verifies(
                        self.signatures@[k],
                        self.message.spec_static_account_keys()[k],
                        message_bytes@,
                    ),
            decreases n - i,
        {
            let verified = self.signatures[i].verify(slice_index_get(keys, i), message_bytes);
            results.push(verified);
            i = i + 1;
        }
        proof {
            assert(results@ =~= spec_verify_results_over(
                self.signatures@,
                self.message.spec_static_account_keys(),
                message_bytes@,
            ));
        }
        results
    }
}

impl From<Transaction> for VersionedTransaction {
    /// Upgrades a legacy transaction: the same signatures, with the message
    /// tagged as legacy. A representation change only; no validation is
    /// performed.
    fn from(transaction: Transaction) -> (r: Self) {
        VersionedTransaction {
            signatures: transaction.signatures,
            message: VersionedMessage::Legacy(transaction.message),
        }
    }
}

impl vstd::std_specs::convert::FromSpecImpl<Transaction> for VersionedTransaction {
    open spec fn obeys_from_spec() -> bool {
        true
    }

    open spec fn from_spec(transaction: Transaction) -> Self {
        spec_upgrade_legacy(transaction)
    }
}

impl Default for VersionedTransaction {
    /// An empty transaction: no signatures, and a legacy message with no
    /// account keys that requires no signatures.
    fn default() -> (r: Self)
        ensures
            r.signatures@.len() == 0,
            r.message matches VersionedMessage::Legacy(message)
                && message.header.num_required_signatures == 0 && message.account_keys@.len() == 0,
    {
        VersionedTransaction {
            signatures: Vec::new(),
            message: VersionedMessage::Legacy(
                Message {
                    header: MessageHeader { num_required_signatures: 0 },
                    account_keys: Vec::new(),
                },
            ),
        }
    }
}

/// A signer set whose public keys are exactly the required signer prefix —
/// as a set, in any order, without duplicates — has the prefix's
/// cardinality and supplies every expected key, so construction owes it a
/// transaction.
pub proof fn lemma_exact_signer_set_covers(expected: Seq<Pubkey>, supplied: Seq<Pubkey>)
    requires
        expected.no_duplicates(),
        supplied.no_duplicates(),
        expected.to_set() =~= supplied.to_set(),
    ensures
        supplied.len() == expected.len(),
        spec_covers(expected, supplied),
{
    expected.unique_seq_to_set();
    supplied.unique_seq_to_set();
    assert forall|i: int| 0 <= i < expected.len() implies supplied.contains(
        #[trigger] expected[i],
    ) by {
        assert(expected.to_set().contains(expected[i]));
    }
}

/// A transaction whose signatures match the required prefix — as every
/// transaction returned by construction does — verifies all-true: the
/// result list is as long as the signature list and true at every index.
pub proof fn lemma_prefix_signed_all_verify(transaction: VersionedTransaction)
    requires
        transaction.signatures@.len() <= transaction.message.spec_static_account_keys().len(),
        transaction.spec_signatures_match_prefix(),
    ensures
        transaction.spec_verify_results().len() == transaction.signatures@.len(),
        transaction.spec_all_signatures_verify(),
{
}

/// The message hash of a transaction depends on its message alone: two
/// transactions with equal messages have equal message bytes, whatever
/// their signatures.
pub proof fn lemma_hash_ignores_signatures(a: VersionedTransaction, b: VersionedTransaction)
    requires
        a.message == b.message,
    ensures
        a.spec_message_bytes() == b.spec_message_bytes(),
{
}

/// Replacing the signature at one verifying index with any different value
/// flips that index's verification result to false and leaves every other
/// result unchanged.
pub proof fn lemma_tampered_signature_fails(
    sigs: Seq<Signature>,
    keys: Seq<Pubkey>,
    message: Seq<u8>,
    i: int,
    tampered: Signature,
)
    requires
        0 <= i < spec_verify_results_over(sigs, keys, message).len(),
        spec_verify_results_over(sigs, keys, message)[i],
        tampered != sigs[i],
    ensures
        spec_verify_results_over(sigs.update(i, tampered), keys, message).len()
            == spec_verify_results_over(sigs, keys, message).len(),
        !spec_verify_results_over(sigs.update(i, tampered), keys, message)[i],
        forall|j: int|
            0 <= j < spec_verify_results_over(sigs, keys, message).len() && j != i
                ==> spec_verify_results_over(sigs.update(i, tampered), keys, message)[j]
                == #[trigger] spec_verify_results_over(sigs, keys, message)[j],
{
    assert(!sig_verifies(tampered, keys[i], message)) by {
        if sig_verifies(tampered, keys[i], message) {
            assert(tampered.signer == sigs[i].signer);
            assert(tampered.digest == sigs[i].digest);
        }
    }
}

/// Upgrading a legacy transaction preserves its signatures and wraps its
/// message unchanged, so the wrapped message serializes to exactly the
/// bytes the legacy message serializes to.
pub proof fn lemma_legacy_upgrade_round_trip(transaction: Transaction)
    ensures
        spec_upgrade_legacy(transaction).signatures == transaction.signatures,
        spec_upgrade_legacy(transaction).message matches VersionedMessage::Legacy(message)
            && message == transaction.message,
        spec_upgrade_legacy(transaction).message.spec_serialize()
            == transaction.message.spec_serialize(),
{
}

} // verus!
