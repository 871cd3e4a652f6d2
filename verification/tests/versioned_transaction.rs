use versioned_tx::hashing::digest_bytes;
use versioned_tx::hashing::MessageHash;
use versioned_tx::hashing::DIGEST_SEED;
use versioned_tx::message::Message;
use versioned_tx::message::MessageHeader;
use versioned_tx::message::MessageV0;
use versioned_tx::message::VersionedMessage;
use versioned_tx::message::MESSAGE_VERSION_PREFIX;
use versioned_tx::pubkey::Pubkey;
use versioned_tx::sanitize::SanitizeError;
use versioned_tx::signature::Signature;
use versioned_tx::signers::Keypair;
use versioned_tx::signers::KeypairSet;
use versioned_tx::signers::SignerError;
use versioned_tx::transaction::resolve_signature_indexes;
use versioned_tx::transaction::Legacy;
use versioned_tx::transaction::Transaction;
use versioned_tx::transaction::TransactionError;
use versioned_tx::transaction::TransactionVersion;
use versioned_tx::transaction::VersionedTransaction;

fn legacy_message(num_required_signatures: u8, account_keys: Vec<Pubkey>) -> VersionedMessage {
    VersionedMessage::Legacy(Message {
        header: MessageHeader {
            num_required_signatures,
        },
        account_keys,
    })
}

fn v0_message(num_required_signatures: u8, account_keys: Vec<Pubkey>) -> VersionedMessage {
    VersionedMessage::V0(MessageV0 {
        header: MessageHeader {
            num_required_signatures,
        },
        account_keys,
    })
}

#[test]
fn test_try_new() {
    let keypair0 = Keypair::new(10);
    let keypair1 = Keypair::new(11);
    let keypair2 = Keypair::new(12);
    let program_id = Pubkey::new(99);

    let message = legacy_message(
        2,
        vec![
            keypair0.pubkey(),
            keypair1.pubkey(),
            keypair2.pubkey(),
            program_id,
        ],
    );

    assert_eq!(
        VersionedTransaction::try_new(message.clone(), &KeypairSet::new(vec![keypair0])),
        Err(SignerError::NotEnoughSigners)
    );

    assert_eq!(
        VersionedTransaction::try_new(message.clone(), &KeypairSet::new(vec![keypair0, keypair0])),
        Err(SignerError::KeypairPubkeyMismatch)
    );

    assert_eq!(
        VersionedTransaction::try_new(message.clone(), &KeypairSet::new(vec![keypair1, keypair2])),
        Err(SignerError::KeypairPubkeyMismatch)
    );

    match VersionedTransaction::try_new(message.clone(), &KeypairSet::new(vec![keypair0, keypair1]))
    {
        Ok(tx) => assert_eq!(tx.verify_with_results(), vec![true; 2]),
        Err(err) => assert_eq!(Some(err), None),
    }

    match VersionedTransaction::try_new(message, &KeypairSet::new(vec![keypair1, keypair0])) {
        Ok(tx) => assert_eq!(tx.verify_with_results(), vec![true; 2]),
        Err(err) => assert_eq!(Some(err), None),
    }
}

#[test]
fn test_try_new_too_many_signers() {
    let keypair0 = Keypair::new(10);
    let keypair1 = Keypair::new(11);
    let keypair2 = Keypair::new(12);
    let message = legacy_message(2, vec![keypair0.pubkey(), keypair1.pubkey()]);

    assert_eq!(
        VersionedTransaction::try_new(
            message,
            &KeypairSet::new(vec![keypair0, keypair1, keypair2])
        ),
        Err(SignerError::TooManySigners)
    );
}

#[test]
fn test_try_new_invalid_message() {
    let keypair0 = Keypair::new(10);
    let message = legacy_message(5, vec![keypair0.pubkey(), Pubkey::new(99)]);

    assert_eq!(
        VersionedTransaction::try_new(message, &KeypairSet::new(vec![keypair0])),
        Err(SignerError::InvalidInput("invalid message".to_string()))
    );
}

#[test]
fn test_signature_reordering() {
    let keypair_a = Keypair::new(21);
    let keypair_b = Keypair::new(22);
    let message = legacy_message(2, vec![keypair_a.pubkey(), keypair_b.pubkey()]);
    let message_bytes = message.serialize();

    // Signers supplied as {B, A}: output order follows the message, not the input.
    let tx = VersionedTransaction::try_new(message, &KeypairSet::new(vec![keypair_b, keypair_a]))
        .unwrap();
    assert!(tx.signatures[0].verify(&keypair_a.pubkey(), &message_bytes));
    assert!(tx.signatures[1].verify(&keypair_b.pubkey(), &message_bytes));
    assert!(!tx.signatures[0].verify(&keypair_b.pubkey(), &message_bytes));
    assert_eq!(tx.verify_with_results(), vec![true; 2]);
}

#[test]
fn test_resolve_signature_indexes() {
    let a = Pubkey::new(1);
    let b = Pubkey::new(2);

    assert_eq!(
        resolve_signature_indexes(&[a, b], &vec![b, a]),
        Ok(vec![1, 0])
    );
    assert_eq!(
        resolve_signature_indexes(&[a, b], &vec![a, b]),
        Ok(vec![0, 1])
    );
    // First match wins for duplicated supplied keys.
    assert_eq!(
        resolve_signature_indexes(&[a], &vec![a]),
        Ok(vec![0])
    );
    assert_eq!(
        resolve_signature_indexes(&[a, b], &vec![a, a]),
        Err(SignerError::KeypairPubkeyMismatch)
    );
    assert_eq!(
        resolve_signature_indexes(&[a, b], &vec![a]),
        Err(SignerError::NotEnoughSigners)
    );
    assert_eq!(
        resolve_signature_indexes(&[a], &vec![a, b]),
        Err(SignerError::TooManySigners)
    );
}

#[test]
fn test_sanitize_ok() {
    let keys = vec![Pubkey::new(1), Pubkey::new(2), Pubkey::new(3)];
    let tx = VersionedTransaction {
        signatures: vec![
            Signature {
                signer: 1,
                digest: 0,
            },
            Signature {
                signer: 2,
                digest: 0,
            },
        ],
        message: legacy_message(2, keys),
    };
    assert_eq!(tx.sanitize(true), Ok(()));
    assert_eq!(tx.sanitize(false), Ok(()));
}

#[test]
fn test_sanitize_too_few_signatures() {
    let tx = VersionedTransaction {
        signatures: vec![Signature {
            signer: 1,
            digest: 0,
        }],
        message: legacy_message(2, vec![Pubkey::new(1), Pubkey::new(2)]),
    };
    assert_eq!(tx.sanitize(true), Err(SanitizeError::IndexOutOfBounds));
}

#[test]
fn test_sanitize_too_many_signatures() {
    let tx = VersionedTransaction {
        signatures: vec![
            Signature {
                signer: 1,
                digest: 0,
            },
            Signature {
                signer: 2,
                digest: 0,
            },
        ],
        message: legacy_message(1, vec![Pubkey::new(1), Pubkey::new(2)]),
    };
    assert_eq!(tx.sanitize(true), Err(SanitizeError::InvalidValue));
}

#[test]
fn test_sanitize_signatures_exceed_static_keys() {
    // Counts match the header, but the signatures outnumber the static keys.
    let tx = VersionedTransaction {
        signatures: vec![
            Signature {
                signer: 1,
                digest: 0,
            },
            Signature {
                signer: 2,
                digest: 0,
            },
            Signature {
                signer: 3,
                digest: 0,
            },
        ],
        message: v0_message(3, vec![Pubkey::new(1), Pubkey::new(2)]),
    };
    assert_eq!(tx.sanitize(true), Err(SanitizeError::IndexOutOfBounds));
}

#[test]
fn test_from_legacy_round_trip() {
    let keypair = Keypair::new(7);
    let legacy = Message {
        header: MessageHeader {
            num_required_signatures: 1,
        },
        account_keys: vec![keypair.pubkey(), Pubkey::new(42)],
    };
    let legacy_bytes = legacy.serialize();
    let signature = keypair.sign_message(&legacy_bytes);
    let transaction = Transaction {
        signatures: vec![signature],
        message: legacy.clone(),
    };

    let versioned = VersionedTransaction::from(transaction.clone());
    assert_eq!(versioned.signatures, transaction.signatures);
    assert_eq!(versioned.message.serialize(), legacy_bytes);
    assert_eq!(
        versioned.version(),
        TransactionVersion::Legacy(Legacy::Legacy)
    );
    assert_eq!(versioned.into_legacy_transaction(), Some(transaction));
}

#[test]
fn test_version_and_into_legacy_on_v0() {
    let tx = VersionedTransaction {
        signatures: vec![],
        message: v0_message(0, vec![]),
    };
    assert_eq!(tx.version(), TransactionVersion::Number(0));
    assert_eq!(tx.into_legacy_transaction(), None);
}

#[test]
fn test_verify_and_hash_message_ignores_signer_order() {
    let keypair_a = Keypair::new(31);
    let keypair_b = Keypair::new(32);
    let message = legacy_message(2, vec![keypair_a.pubkey(), keypair_b.pubkey()]);

    let tx1 =
        VersionedTransaction::try_new(message.clone(), &KeypairSet::new(vec![keypair_a, keypair_b]))
            .unwrap();
    let tx2 =
        VersionedTransaction::try_new(message.clone(), &KeypairSet::new(vec![keypair_b, keypair_a]))
            .unwrap();

    let hash1 = tx1.verify_and_hash_message().unwrap();
    let hash2 = tx2.verify_and_hash_message().unwrap();
    assert_eq!(hash1, hash2);
    assert_eq!(
        hash1,
        MessageHash {
            value: digest_bytes(&message.serialize())
        }
    );
}

#[test]
fn test_tampered_signature_fails_at_its_index_only() {
    let keypair_a = Keypair::new(41);
    let keypair_b = Keypair::new(42);
    let message = legacy_message(2, vec![keypair_a.pubkey(), keypair_b.pubkey()]);

    let tx = VersionedTransaction::try_new(message, &KeypairSet::new(vec![keypair_a, keypair_b]))
        .unwrap();
    assert_eq!(tx.verify_with_results(), vec![true, true]);

    let mut tampered_digest = tx.clone();
    tampered_digest.signatures[1].digest ^= 1;
    assert_eq!(tampered_digest.verify_with_results(), vec![true, false]);
    assert_eq!(
        tampered_digest.verify_and_hash_message(),
        Err(TransactionError::SignatureFailure)
    );

    let mut tampered_signer = tx.clone();
    tampered_signer.signatures[0].signer ^= 1;
    assert_eq!(tampered_signer.verify_with_results(), vec![false, true]);
    assert_eq!(
        tampered_signer.verify_and_hash_message(),
        Err(TransactionError::SignatureFailure)
    );
}

#[test]
fn test_digest_known_values() {
    // FNV-1a, 64-bit: the digest of the empty input is the offset basis.
    assert_eq!(digest_bytes(&[]), DIGEST_SEED);
    assert_eq!(digest_bytes(&[]), 0xcbf29ce484222325);
    assert_eq!(digest_bytes(b"a"), 0xaf63dc4c8601ec8c);
}

#[test]
fn test_hash_raw_message_is_digest_of_bytes() {
    assert_eq!(
        VersionedMessage::hash_raw_message(&[]),
        MessageHash { value: DIGEST_SEED }
    );
    let bytes = vec![1u8, 2, 3];
    assert_eq!(
        VersionedMessage::hash_raw_message(&bytes),
        MessageHash {
            value: digest_bytes(&bytes)
        }
    );
}

#[test]
fn test_serialize_exact_bytes() {
    let message = Message {
        header: MessageHeader {
            num_required_signatures: 1,
        },
        account_keys: vec![Pubkey::new(2)],
    };
    assert_eq!(message.serialize(), vec![1u8, 2, 0, 0, 0, 0, 0, 0, 0]);
    assert_eq!(
        VersionedMessage::Legacy(message).serialize(),
        vec![1u8, 2, 0, 0, 0, 0, 0, 0, 0]
    );

    let message_v0 = MessageV0 {
        header: MessageHeader {
            num_required_signatures: 1,
        },
        account_keys: vec![Pubkey::new(2)],
    };
    assert_eq!(MESSAGE_VERSION_PREFIX, 0x80);
    assert_eq!(
        message_v0.serialize(),
        vec![0x80u8, 1, 2, 0, 0, 0, 0, 0, 0, 0]
    );
    assert_eq!(
        VersionedMessage::V0(message_v0).serialize(),
        vec![0x80u8, 1, 2, 0, 0, 0, 0, 0, 0, 0]
    );
}

#[test]
fn test_message_sanitize_over_claiming_header() {
    let message = legacy_message(3, vec![Pubkey::new(1), Pubkey::new(2)]);
    assert_eq!(message.sanitize(true), Err(SanitizeError::IndexOutOfBounds));
    let sane = legacy_message(2, vec![Pubkey::new(1), Pubkey::new(2)]);
    assert_eq!(sane.sanitize(true), Ok(()));
}

#[test]
fn test_default_transaction() {
    let tx = VersionedTransaction::default();
    assert_eq!(tx.signatures, vec![]);
    assert_eq!(
        tx.version(),
        TransactionVersion::Legacy(Legacy::Legacy)
    );
    assert_eq!(tx.sanitize(true), Ok(()));
    assert_eq!(tx.verify_with_results(), Vec::<bool>::new());
}

#[test]
fn test_try_new_v0_message() {
    let keypair = Keypair::new(51);
    let message = v0_message(1, vec![keypair.pubkey(), Pubkey::new(60)]);

    let tx = VersionedTransaction::try_new(message, &KeypairSet::new(vec![keypair])).unwrap();
    assert_eq!(tx.version(), TransactionVersion::Number(0));
    assert_eq!(tx.verify_with_results(), vec![true]);
    assert_eq!(tx.sanitize(true), Ok(()));
    assert!(tx.verify_and_hash_message().is_ok());
}

#[test]
fn test_message_accessors() {
    let keys = vec![Pubkey::new(5), Pubkey::new(6)];
    let message = legacy_message(1, keys.clone());
    assert_eq!(message.header().num_required_signatures, 1);
    assert_eq!(message.static_account_keys(), &keys[..]);

    let message = v0_message(2, keys.clone());
    assert_eq!(message.header().num_required_signatures, 2);
    assert_eq!(message.static_account_keys(), &keys[..]);
}
