use crate::hashing::digest_bytes;
use crate::hashing::spec_digest;
use crate::hashing::MessageHash;
use crate::pubkey::Pubkey;
use crate::sanitize::SanitizeError;
use vstd::bytes::spec_u64_to_le_bytes;
use vstd::bytes::u64_to_le_bytes;
use vstd::prelude::*;

verus! {

/// Leading byte that marks the encoding of a numbered message; a legacy
/// encoding starts with its header instead.
pub const MESSAGE_VERSION_PREFIX: u8 = 0x80;

/// The part of a message header that verification reads: how many of the
/// leading static account keys must sign the message.
#[derive(Clone, Copy, Debug, PartialEq, Eq, Structural)]
pub struct MessageHeader {
    pub num_required_signatures: u8,
}

/// The legacy, original message shape: a header and an ordered,
/// duplicate-free list of static account keys.
#[derive(Clone, Debug, PartialEq, Eq)]
pub struct Message {
    pub header: MessageHeader,
    pub account_keys: Vec<Pubkey>,
}

/// The numbered message shape of version 0. It carries the same parts that
/// verification reads; the extensions it adds over the legacy shape (such as
/// address-lookup tables) never contribute signer positions, so they are not
/// modeled here.
#[derive(Clone, Debug, PartialEq, Eq)]
pub struct MessageV0 {
    pub header: MessageHeader,
    pub account_keys: Vec<Pubkey>,
}

/// A message, in one of the two wire-compatible shapes.
#[derive(Clone, Debug, PartialEq, Eq)]
pub enum VersionedMessage {
    Legacy(Message),
    V0(MessageV0),
}

/// The serialization of a key list: the 8 little-endian bytes of each key,
/// in list order.
pub open spec fn spec_keys_bytes(keys: Seq<Pubkey>) -> Seq<u8>
    decreases keys.len(),
{
    if keys.len() == 0 {
        Seq::empty()
    } else {
        spec_keys_bytes(keys.drop_last()) + spec_u64_to_le_bytes(keys.last().id)
    }
}

/// Appends the serialization of `keys` to `out`.
fn serialize_keys_into(out: &mut Vec<u8>, keys: &Vec<Pubkey>)
    ensures
        final(out)@ == old(out)@ + spec_keys_bytes(keys@),
{
    let mut i: usize = 0;
    while i < keys.len()
        invariant
            i <= keys@.len(),
            out@ == old(out)@ + spec_keys_bytes(keys@.take(i as int)),
        decreases keys@.len() - i,
    {
        let mut key_bytes = u64_to_le_bytes(keys[i].id);
        out.append(&mut key_bytes);
        proof {
            assert(keys@.take(i + 1 as int).drop_last() =~= keys@.take(i as int));
            assert(keys@.take(i + 1 as int).last() == keys@[i as int]);
        }
        i = i + 1;
    }
    proof {
        assert(keys@.take(keys@.len() as int) =~= keys@);
    }
}

impl Message {
    /// The bytes this message serializes to: the required-signature count,
    /// then the account keys.
    pub open spec fn spec_serialize(&self) -> Seq<u8> {
        seq![self.header.num_required_signatures] + spec_keys_bytes(self.account_keys@)
    }

    /// Serializes this message to bytes.
    pub fn serialize(&self) -> (r: Vec<u8>)
        ensures
            r@ == self.spec_serialize(),
    {
        let mut out: Vec<u8> = Vec::new();
        out.push(self.header.num_required_signatures);
        serialize_keys_into(&mut out, &self.account_keys);
        out
    }
}

impl MessageV0 {
    /// The bytes this message serializes to: the version prefix, then the
    /// required-signature count, then the account keys.
    pub open spec fn spec_serialize(&self) -> Seq<u8> {
        seq![MESSAGE_VERSION_PREFIX, self.header.num_required_signatures] + spec_keys_bytes(
            self.account_keys@,
        )
    }

    /// Serializes this message to bytes.
    pub fn serialize(&self) -> (r: Vec<u8>)
        ensures
            r@ == self.spec_serialize(),
    {
        let mut out: Vec<u8> = Vec::new();
        out.push(MESSAGE_VERSION_PREFIX);
        out.push(self.header.num_required_signatures);
        serialize_keys_into(&mut out, &self.account_keys);
        out
    }
}

impl VersionedMessage {
    /// The header of the embedded message.
    pub open spec fn spec_header(&self) -> MessageHeader {
        match self {
            VersionedMessage::Legacy(message) => message.header,
            VersionedMessage::V0(message) => message.header,
        }
    }

    /// The number of leading account keys that must sign, as a count.
    pub open spec fn spec_num_required_signatures(&self) -> int {
        self.spec_header().num_required_signatures as int
    }

    /// The ordered static account keys of the embedded message.
    pub open spec fn spec_static_account_keys(&self) -> Seq<Pubkey> {
        match self {
            VersionedMessage::Legacy(message) => message.account_keys@,
            VersionedMessage::V0(message) => message.account_keys@,
        }
    }

    /// The bytes this message serializes to.
    pub open spec fn spec_serialize(&self) -> Seq<u8> {
        match self {
            VersionedMessage::Legacy(message) => message.spec_serialize(),
            VersionedMessage::V0(message) => message.spec_serialize(),
        }
    }

    /// Returns the message header.
    pub fn header(&self) -> (r: &MessageHeader)
        ensures
            *r == self.spec_header(),
    {
        match self {
            VersionedMessage::Legacy(message) => &message.header,
            VersionedMessage::V0(message) => &message.header,
        }
    }

    /// Returns the ordered static account keys.
    pub fn static_account_keys(&self) -> (r: &[Pubkey])
        ensures
            r@ == self.spec_static_account_keys(),
    {
        match self {
            VersionedMessage::Legacy(message) => message.account_keys.as_slice(),
            VersionedMessage::V0(message) => message.account_keys.as_slice(),
        }
    }

    /// Serializes this message to bytes.
    pub fn serialize(&self) -> (r: Vec<u8>)
        ensures
            r@ == self.spec_serialize(),
    {
        match self {
            VersionedMessage::Legacy(message) => message.serialize(),
            VersionedMessage::V0(message) => message.serialize(),
        }
    }

    /// The structural invariant of a message: its header may not claim more
    /// required signers than the message has static account keys.
    pub open spec fn spec_sanitized(&self) -> bool {
        self.spec_num_required_signatures() <= self.spec_static_account_keys().len()
    }

    /// Checks the structural invariant of the message itself. The flag is
    /// part of the stable signature; with this message model (header and
    /// static keys only) the check does not depend on it.
    pub fn sanitize(&self, _require_static_program_ids: bool) -> (r: Result<(), SanitizeError>)
        ensures
            (r is Ok) <==> self.spec_sanitized(),
            r matches Err(e) ==> e == SanitizeError::IndexOutOfBounds,
    {
        let num_required = self.header().num_required_signatures as usize;
        if num_required <= self.static_account_keys().len() {
            Ok(())
        } else {
            Err(SanitizeError::IndexOutOfBounds)
        }
    }

    /// Hashes raw, already-serialized message bytes.
    pub fn hash_raw_message(message_bytes: &[u8]) -> (r: MessageHash)
        ensures
            r == (MessageHash { value: spec_digest(message_bytes@) }),
    {
        MessageHash { value: digest_bytes(message_bytes) }
    }
}

} // verus!
