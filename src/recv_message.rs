//! Inbound path: a guardian-signed body becomes an attestation for the endpoint.
//!
//! The checks run in a fixed order and each one is final: the guardian signatures over the
//! body's digest, the body's layout, the emitter against the registered peer, and the
//! destination chain. Only a body that passes all of them yields an attestation; refusing a
//! repeated delivery is the endpoint's part.
use vstd::prelude::*;

use crate::bytes::u16_from_be;
use crate::error::WormholeGuardiansAdapterError;
use crate::guardian_message::GuardianMessage;
use crate::message::MESSAGE_LEN;
use crate::peer::PeerRegistry;
use crate::CHAIN_ID;

verus! {

/// The Keccak-256 digest of a byte string.
pub uninterp spec fn keccak256_of(data: Seq<u8>) -> Seq<u8>;

/// Relies on `anchor_lang::solana_program::keccak::hash`: the Keccak-256 digest of `data`.
#[verifier::external_body]
fn keccak256(data: &[u8]) -> (r: [u8; 32])
    ensures
        r@ == keccak256_of(data@),
{
    anchor_lang::solana_program::keccak::hash(data).to_bytes()
}

/// Shortest body that the Wormhole layout admits: the header fields before the payload.
pub const VAA_BODY_HEADER_LEN: usize = 51;

/// Emitter chain of a body: bytes 8..10, big-endian.
pub open spec fn vaa_emitter_chain(body: Seq<u8>) -> u16 {
    u16_from_be(body.subrange(8, 10))
}

/// Emitter address of a body: bytes 10..42.
pub open spec fn vaa_emitter_address(body: Seq<u8>) -> Seq<u8> {
    body.subrange(10, 42)
}

/// Payload of a body: every byte after the 51-byte header.
pub open spec fn vaa_payload(body: Seq<u8>) -> Seq<u8> {
    body.subrange(VAA_BODY_HEADER_LEN as int, body.len() as int)
}

/// The fields of a body that the adapter reads.
struct VaaBody {
    emitter_chain: u16,
    emitter_address: [u8; 32],
    payload: Vec<u8>,
}

/// Relies on `wormhole_raw_vaas::Body::parse`, which accepts a span of at least 51 bytes, and on
/// `Body::emitter_chain` (bytes 8..10, big-endian), `Body::emitter_address` (bytes 10..42) and
/// `Body::payload` (the bytes from 51 on).
#[verifier::external_body]
fn parse_vaa_body(bytes: &[u8]) -> (r: Option<VaaBody>)
    ensures
        r is Some <==> bytes@.len() >= VAA_BODY_HEADER_LEN,
        r matches Some(b) ==> {
            &&& b.emitter_chain == vaa_emitter_chain(bytes@)
            &&& b.emitter_address@ == vaa_emitter_address(bytes@)
            &&& b.payload@ == vaa_payload(bytes@)
        },
{
    let body = wormhole_raw_vaas::Body::parse(bytes).ok()?;
    Some(
        VaaBody {
            emitter_chain: body.emitter_chain(),
            emitter_address: body.emitter_address(),
            payload: body.payload().as_ref().to_vec(),
        },
    )
}

/// An inbound message as it arrives: the body that the guardians signed.
#[derive(Debug, PartialEq, Eq)]
pub struct ReceiveMessageArgs {
    pub vaa_body: Vec<u8>,
}

/// What the adapter attests to the endpoint for one accepted inbound message.
///
/// The endpoint keys it by `(src_chain, src_addr, sequence)`.
#[derive(Debug, Clone, Copy, PartialEq, Eq)]
pub struct Attestation {
    pub src_chain: u16,
    pub src_addr: [u8; 32],
    pub sequence: u64,
    pub dst_chain: u16,
    pub integrator_program_id: [u8; 32],
    pub payload_hash: [u8; 32],
}

/// Why an inbound message was not attested.
#[derive(Debug, PartialEq, Eq)]
pub enum RecvError<E> {
    /// The guardian signatures did not verify; the verifier's own error, unchanged.
    Quorum(E),
    /// The signed body was refused by the adapter's checks.
    Rejected(WormholeGuardiansAdapterError),
}

impl Attestation {
    /// The envelope that the attestation carries.
    pub open spec fn message(self) -> GuardianMessage {
        GuardianMessage {
            src_addr: self.src_addr,
            sequence: self.sequence,
            dst_chain: self.dst_chain,
            dst_addr: self.integrator_program_id,
            payload_hash: self.payload_hash,
        }
    }

    /// `self` is what the signed body `body` says.
    pub open spec fn is_attestation_of(self, body: Seq<u8>) -> bool {
        &&& self.src_chain == vaa_emitter_chain(body)
        &&& self.message().is_decoding_of(vaa_payload(body))
    }
}

/// Why a body whose signatures verified is refused, by the first check that fails; `None` if it
/// passes them all.
pub open spec fn inbound_rejection(peers: Map<u16, [u8; 32]>, body: Seq<u8>) -> Option<
    WormholeGuardiansAdapterError,
> {
    if body.len() < VAA_BODY_HEADER_LEN || vaa_payload(body).len() != MESSAGE_LEN {
        Some(WormholeGuardiansAdapterError::InvalidPayloadLength)
    } else if !peers.contains_key(vaa_emitter_chain(body)) || peers[vaa_emitter_chain(body)]@
        != vaa_emitter_address(body) {
        Some(WormholeGuardiansAdapterError::InvalidPeer)
    } else if u16_from_be(vaa_payload(body).subrange(40, 42)) != CHAIN_ID {
        Some(WormholeGuardiansAdapterError::InvalidChain)
    } else {
        None
    }
}

/// The digest that the guardians sign for a body: Keccak-256 applied twice.
pub fn vaa_digest(vaa_body: &[u8]) -> (r: [u8; 32])
    ensures
        r@ == keccak256_of(keccak256_of(vaa_body@)),
{
    let message_hash = keccak256(vaa_body);
    keccak256(&message_hash)
}

/// Decides an inbound message.
///
/// `quorum` is the outcome of verifying the guardian signatures over `vaa_digest(&args.vaa_body)`;
/// a failure there is returned as it is, before anything else is looked at. Otherwise the body
/// must hold a 106-byte envelope, come from the peer registered for its emitter chain, and be
/// addressed to this chain.
pub fn recv_message<E>(peers: &PeerRegistry, args: &ReceiveMessageArgs, quorum: Result<(), E>) -> (r:
    Result<Attestation, RecvError<E>>)
    ensures
        match quorum {
            Err(e) => r == Err::<Attestation, _>(RecvError::Quorum(e)),
            Ok(_) => match inbound_rejection(peers@, args.vaa_body@) {
                Some(x) => r == Err::<Attestation, _>(RecvError::<E>::Rejected(x)),
                None => r matches Ok(a) && a.is_attestation_of(args.vaa_body@),
            },
        },
{
    if let Err(e) = quorum {
        return Err(RecvError::Quorum(e));
    }
    let body = match parse_vaa_body(args.vaa_body.as_slice()) {
        Some(body) => body,
        None => {
            return Err(RecvError::Rejected(WormholeGuardiansAdapterError::InvalidPayloadLength));
        },
    };
    let message = match GuardianMessage::decode(body.payload.as_slice()) {
        Ok(message) => message,
        Err(e) => {
            return Err(RecvError::Rejected(e));
        },
    };
    match peers.lookup(body.emitter_chain) {
        Some(peer) => {
            if !crate::bytes::same_address(&peer.contract, &body.emitter_address) {
                return Err(RecvError::Rejected(WormholeGuardiansAdapterError::InvalidPeer));
            }
        },
        None => {
            return Err(RecvError::Rejected(WormholeGuardiansAdapterError::InvalidPeer));
        },
    }
    if message.dst_chain != CHAIN_ID {
        return Err(RecvError::Rejected(WormholeGuardiansAdapterError::InvalidChain));
    }
    Ok(
        Attestation {
            src_chain: body.emitter_chain,
            src_addr: message.src_addr,
            sequence: message.sequence,
            dst_chain: message.dst_chain,
            integrator_program_id: message.dst_addr,
            payload_hash: message.payload_hash,
        },
    )
}

} // verus!
