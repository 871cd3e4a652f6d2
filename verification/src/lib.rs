//! A versioned, multiply-signed atomic transaction envelope.
//!
//! A [`transaction::VersionedTransaction`] pairs an ordered list of
//! signatures with one versioned message. The signature at index `i` is
//! interpreted as the signature of the account key at index `i` of the
//! message's static account keys: signatures are matched by position,
//! never by content. The crate owns construction (reordering supplied
//! signers to the message-declared order), structural sanitization, and
//! two-mode verification (a per-index boolean vector, and a hash-returning
//! check that fails on any bad signature).

pub mod hashing;
pub mod message;
pub mod pubkey;
pub mod sanitize;
pub mod signature;
pub mod signers;
pub mod transaction;
