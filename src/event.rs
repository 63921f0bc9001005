//! Records of the administrative transitions, for indexers.
use vstd::prelude::*;

verus! {

/// The admin changed, by a claim or by a direct update.
#[derive(Debug, Clone, Copy, PartialEq, Eq)]
pub struct AdminUpdated {
    pub old_admin: Option<[u8; 32]>,
    pub new_admin: [u8; 32],
}

/// The admin proposed a successor, who still has to claim.
#[derive(Debug, Clone, Copy, PartialEq, Eq)]
pub struct AdminUpdateRequested {
    pub current_admin: [u8; 32],
    pub proposed_admin: [u8; 32],
}

/// The admin gave up the role for good.
#[derive(Debug, Clone, Copy, PartialEq, Eq)]
pub struct AdminDiscarded {
    pub admin: [u8; 32],
}

/// A peer was registered for a remote chain.
#[derive(Debug, Clone, Copy, PartialEq, Eq)]
pub struct PeerAdded {
    pub chain: u16,
    pub peer_contract: [u8; 32],
}

} // verus!
