//! The adapter's singleton configuration.
use vstd::prelude::*;

use crate::bytes::same_address;

verus! {

/// Confirmation depth that the core bridge applies before a published message counts as final.
#[derive(Debug, Clone, Copy, PartialEq, Eq, Structural)]
pub enum Finality {
    Confirmed,
    Finalized,
}

/// Settings and authority of the adapter.
///
/// `admin == None` means the admin role was discarded: no admin-gated operation can succeed again.
/// `pending_admin` holds a proposed successor until it claims the role.
#[derive(Debug, Clone, Copy, PartialEq, Eq)]
pub struct Config {
    pub admin: Option<[u8; 32]>,
    pub pending_admin: Option<[u8; 32]>,
    /// The Wormhole core bridge program that messages are published through.
    pub wormhole_program: [u8; 32],
    pub consistency_level: Finality,
}

impl Config {
    /// The admin role was given up: no admin and no successor.
    pub open spec fn is_discarded(self) -> bool {
        self.admin is None && self.pending_admin is None
    }

    /// Whether `caller` holds the admin role.
    pub fn is_admin(&self, caller: &[u8; 32]) -> (r: bool)
        ensures
            r == (self.admin == Some(*caller)),
    {
        match &self.admin {
            Some(admin) => same_address(admin, caller),
            None => false,
        }
    }

    /// Whether `caller` is the proposed successor.
    pub fn is_pending_admin(&self, caller: &[u8; 32]) -> (r: bool)
        ensures
            r == (self.pending_admin == Some(*caller)),
    {
        match &self.pending_admin {
            Some(pending) => same_address(pending, caller),
            None => false,
        }
    }
}

} // verus!
