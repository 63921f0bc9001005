//! Errors of the adapter's operations.
use vstd::prelude::*;

verus! {

/// Why an operation was rejected. A rejected operation leaves every record as it was.
#[derive(Debug, Clone, Copy, PartialEq, Eq, Structural)]
pub enum WormholeGuardiansAdapterError {
    CallerNotAdmin,
    AdminTransferPending,
    NoAdminUpdatePending,
    InvalidAdminZeroAddress,
    CallerNotEndpoint,
    InvalidChain,
    InvalidPeerZeroAddress,
    PeerAlreadySet,
    InvalidVaa,
    InvalidPeer,
    InvalidPayloadLength,
    /// The configuration was created before.
    AlreadyInitialized,
}

} // verus!
