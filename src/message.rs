//! Zero-copy view of an encoded envelope.
use vstd::prelude::*;

use crate::bytes::{read_address, read_u16_be, read_u64_be, u16_from_be, u64_from_be};

verus! {

/// Length of an encoded envelope: 32 + 8 + 2 + 32 + 32 bytes.
pub const MESSAGE_LEN: usize = 106;

/// Offset of `sequence` in an encoded envelope; `src_addr` starts at 0.
pub const SEQUENCE_AT: usize = 32;

/// Offset of `dst_chain` in an encoded envelope.
pub const DST_CHAIN_AT: usize = 40;

/// Offset of `dst_addr` in an encoded envelope.
pub const DST_ADDR_AT: usize = 42;

/// Offset of `payload_hash` in an encoded envelope.
pub const PAYLOAD_HASH_AT: usize = 74;

/// A byte span that holds exactly one encoded envelope, read in place.
///
/// Layout, big-endian: `src_addr[32] ‖ sequence: u64 ‖ dst_chain: u16 ‖ dst_addr[32] ‖ payload_hash[32]`.
#[derive(Debug, Copy, Clone, PartialEq, Eq, Hash)]
pub struct Message<'a>(&'a [u8]);

impl<'a> Message<'a> {
    /// The bytes of the envelope.
    pub closed spec fn bytes(self) -> Seq<u8> {
        self.0@
    }

    #[verifier::type_invariant]
    spec fn holds_one_envelope(self) -> bool {
        self.0@.len() == MESSAGE_LEN
    }

    pub fn src_addr(&self) -> (r: [u8; 32])
        ensures
            r@ == self.bytes().subrange(0, 32),
    {
        proof { use_type_invariant(self); }
        read_address(self.0, 0)
    }

    pub fn sequence(&self) -> (r: u64)
        ensures
            r == u64_from_be(self.bytes().subrange(32, 40)),
    {
        proof { use_type_invariant(self); }
        read_u64_be(self.0, SEQUENCE_AT)
    }

    pub fn dst_chain(&self) -> (r: u16)
        ensures
            r == u16_from_be(self.bytes().subrange(40, 42)),
    {
        proof { use_type_invariant(self); }
        read_u16_be(self.0, DST_CHAIN_AT)
    }

    pub fn dst_addr(&self) -> (r: [u8; 32])
        ensures
            r@ == self.bytes().subrange(42, 74),
    {
        proof { use_type_invariant(self); }
        read_address(self.0, DST_ADDR_AT)
    }

    pub fn payload_hash(&self) -> (r: [u8; 32])
        ensures
            r@ == self.bytes().subrange(74, 106),
    {
        proof { use_type_invariant(self); }
        read_address(self.0, PAYLOAD_HASH_AT)
    }

    /// Views `span` as an envelope; refuses any span that is not exactly 106 bytes long.
    pub fn parse(span: &'a [u8]) -> (r: Result<Self, &'static str>)
        ensures
            r is Ok <==> span@.len() == MESSAGE_LEN,
            r matches Ok(m) ==> m.bytes() == span@,
    {
        if span.len() != MESSAGE_LEN {
            return Err("Message: invalid length. Expected exactly 106 bytes.");
        }
        Ok(Message(span))
    }

    /// The bytes of the envelope.
    pub fn as_bytes(&self) -> (r: &'a [u8])
        ensures
            r@ == self.bytes(),
            r@.len() == MESSAGE_LEN,
    {
        proof { use_type_invariant(self); }
        self.0
    }
}

} // verus!
