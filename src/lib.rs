//! Bridge adapter between a local messaging endpoint and the Wormhole guardian network.
//!
//! Outbound, a message picked up from the endpoint is framed as a fixed 106-byte envelope and
//! published through the Wormhole core bridge. Inbound, a guardian-signed body is checked
//! against the registered peers and the local chain before it is attested to the endpoint.
//! Administration of the peer registry follows a two-step admin-transfer state machine.
use vstd::prelude::*;

pub mod admin;
pub mod bytes;
pub mod config;
pub mod error;
pub mod event;
pub mod guardian_message;
pub mod message;
pub mod peer;
pub mod pick_up_message;
pub mod recv_message;

verus! {

/// Wormhole chain id of the chain this adapter runs on (Solana).
pub const CHAIN_ID: u16 = 1;

} // verus!
