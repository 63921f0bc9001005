//! The cross-chain envelope and its fixed 106-byte big-endian encoding.
//!
//! The byte layout matches the packed encoding of the EVM counterpart,
//! `abi.encodePacked(srcAddr, sequence, dstChain, dstAddr, payloadHash)`.
use vstd::prelude::*;

use crate::bytes::{
    lemma_address_view_injective, lemma_u16_bytes_round_trip, lemma_u16_round_trip,
    lemma_u64_bytes_round_trip, lemma_u64_round_trip, push_address,
    push_u16_be, push_u64_be, u16_from_be, u16_to_be, u64_from_be, u64_to_be,
};
use crate::error::WormholeGuardiansAdapterError;
use crate::message::{Message, MESSAGE_LEN};

verus! {

/// One relayed message, as both chains see it.
#[derive(Debug, Clone, Copy, PartialEq, Eq)]
pub struct GuardianMessage {
    pub src_addr: [u8; 32],
    pub sequence: u64,
    pub dst_chain: u16,
    pub dst_addr: [u8; 32],
    pub payload_hash: [u8; 32],
}

impl GuardianMessage {
    /// The wire form: `src_addr ‖ sequence ‖ dst_chain ‖ dst_addr ‖ payload_hash`, big-endian.
    pub open spec fn encoded(self) -> Seq<u8> {
        self.src_addr@ + u64_to_be(self.sequence) + u16_to_be(self.dst_chain) + self.dst_addr@
            + self.payload_hash@
    }

    /// `self` is what the 106 bytes `b` hold, field by field.
    pub open spec fn is_decoding_of(self, b: Seq<u8>) -> bool {
        &&& b.len() == MESSAGE_LEN
        &&& self.src_addr@ == b.subrange(0, 32)
        &&& self.sequence == u64_from_be(b.subrange(32, 40))
        &&& self.dst_chain == u16_from_be(b.subrange(40, 42))
        &&& self.dst_addr@ == b.subrange(42, 74)
        &&& self.payload_hash@ == b.subrange(74, 106)
    }

    /// Number of bytes that `write` appends: always 106.
    pub fn written_size(&self) -> (r: usize)
        ensures
            r == self.encoded().len(),
            r == MESSAGE_LEN,
    {
        MESSAGE_LEN
    }

    /// Appends the wire form of `self` to `out`.
    pub fn write(&self, out: &mut Vec<u8>)
        ensures
            final(out)@ == old(out)@ + self.encoded(),
    {
        let ghost start = out@;
        push_address(out, &self.src_addr);
        push_u64_be(out, self.sequence);
        push_u16_be(out, self.dst_chain);
        push_address(out, &self.dst_addr);
        push_address(out, &self.payload_hash);
        assert(out@ =~= start + self.encoded());
    }

    /// The wire form of `self`.
    pub fn encode(&self) -> (r: Vec<u8>)
        ensures
            r@ == self.encoded(),
            r@.len() == MESSAGE_LEN,
    {
        let mut out: Vec<u8> = Vec::new();
        self.write(&mut out);
        assert(out@ =~= self.encoded());
        out
    }

    /// Reads the fields of an envelope that has been checked for length.
    pub fn read(message: &Message) -> (r: GuardianMessage)
        ensures
            r.is_decoding_of(message.bytes()),
    {
        let span = message.as_bytes();
        assert(span@.len() == MESSAGE_LEN);
        GuardianMessage {
            src_addr: message.src_addr(),
            sequence: message.sequence(),
            dst_chain: message.dst_chain(),
            dst_addr: message.dst_addr(),
            payload_hash: message.payload_hash(),
        }
    }

    /// Decodes an envelope; any input that is not exactly 106 bytes long is refused.
    pub fn decode(bytes: &[u8]) -> (r: Result<GuardianMessage, WormholeGuardiansAdapterError>)
        ensures
            r is Err <==> bytes@.len() != MESSAGE_LEN,
            r matches Err(e) ==> e == WormholeGuardiansAdapterError::InvalidPayloadLength,
            r matches Ok(m) ==> m.is_decoding_of(bytes@),
    {
        match Message::parse(bytes) {
            Ok(message) => Ok(GuardianMessage::read(&message)),
            Err(_) => Err(WormholeGuardiansAdapterError::InvalidPayloadLength),
        }
    }
}

/// Decoding the encoding of an envelope gives back that envelope, and nothing else.
pub proof fn lemma_decode_encode(e: GuardianMessage)
    ensures
        e.encoded().len() == MESSAGE_LEN,
        e.is_decoding_of(e.encoded()),
        forall|d: GuardianMessage| #[trigger] d.is_decoding_of(e.encoded()) ==> d == e,
{
    let b = e.encoded();
    lemma_u64_round_trip(e.sequence);
    lemma_u16_round_trip(e.dst_chain);
    assert(b.subrange(0, 32) =~= e.src_addr@);
    assert(b.subrange(32, 40) =~= u64_to_be(e.sequence));
    assert(b.subrange(40, 42) =~= u16_to_be(e.dst_chain));
    assert(b.subrange(42, 74) =~= e.dst_addr@);
    assert(b.subrange(74, 106) =~= e.payload_hash@);
    assert forall|d: GuardianMessage| #[trigger] d.is_decoding_of(b) implies d == e by {
        lemma_address_view_injective(d.src_addr, e.src_addr);
        lemma_address_view_injective(d.dst_addr, e.dst_addr);
        lemma_address_view_injective(d.payload_hash, e.payload_hash);
    }
}

/// Encoding what was decoded from 106 bytes gives back those bytes: no two byte strings decode to
/// the same envelope.
pub proof fn lemma_encode_decode(b: Seq<u8>, d: GuardianMessage)
    requires
        d.is_decoding_of(b),
    ensures
        d.encoded() == b,
{
    lemma_u64_bytes_round_trip(b.subrange(32, 40));
    lemma_u16_bytes_round_trip(b.subrange(40, 42));
    assert(d.encoded() =~= b);
}

} // verus!
