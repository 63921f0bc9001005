//! Registry of the trusted remote contracts, one per remote chain.
use vstd::prelude::*;

use std::collections::HashMap;

use crate::bytes::{is_zero_address, zero_address};
use crate::error::WormholeGuardiansAdapterError;

verus! {

broadcast use vstd::std_specs::hash::group_hash_axioms;

/// The contract that the adapter trusts on a remote chain.
#[derive(Debug, Clone, Copy, PartialEq, Eq)]
pub struct Peer {
    pub chain: u16,
    pub contract: [u8; 32],
}

/// Append-only map from remote chain id to its peer contract.
pub struct PeerRegistry {
    peers: HashMap<u16, [u8; 32]>,
}

impl View for PeerRegistry {
    type V = Map<u16, [u8; 32]>;

    closed spec fn view(&self) -> Map<u16, [u8; 32]> {
        self.peers@
    }
}

/// What `register(chain, contract)` does to the registry `peers`.
pub open spec fn register_outcome(peers: Map<u16, [u8; 32]>, chain: u16, contract: [u8; 32]) -> Result<
    Map<u16, [u8; 32]>,
    WormholeGuardiansAdapterError,
> {
    if chain == 0 {
        Err(WormholeGuardiansAdapterError::InvalidChain)
    } else if contract@ == zero_address() {
        Err(WormholeGuardiansAdapterError::InvalidPeerZeroAddress)
    } else if peers.contains_key(chain) {
        Err(WormholeGuardiansAdapterError::PeerAlreadySet)
    } else {
        Ok(peers.insert(chain, contract))
    }
}

impl PeerRegistry {
    /// A registry with no peers.
    pub fn new() -> (r: PeerRegistry)
        ensures
            r@ == Map::<u16, [u8; 32]>::empty(),
    {
        PeerRegistry { peers: HashMap::new() }
    }

    /// The peer registered for `chain`, if any.
    pub fn lookup(&self, chain: u16) -> (r: Option<Peer>)
        ensures
            r is Some <==> self@.contains_key(chain),
            r matches Some(p) ==> p.chain == chain && p.contract == self@[chain],
    {
        match self.peers.get(&chain) {
            Some(contract) => Some(Peer { chain, contract: *contract }),
            None => None,
        }
    }

    /// Registers `contract` as the peer for `chain`.
    ///
    /// The chain id and the contract must be non-zero, and a chain that has a peer keeps it:
    /// registering it again is refused whatever the contract.
    pub fn register(&mut self, chain: u16, contract: [u8; 32]) -> (r: Result<
        (),
        WormholeGuardiansAdapterError,
    >)
        ensures
            match register_outcome(old(self)@, chain, contract) {
                Ok(peers) => r is Ok && final(self)@ == peers,
                Err(e) => r == Err::<(), _>(e) && final(self)@ == old(self)@,
            },
    {
        if chain == 0 {
            return Err(WormholeGuardiansAdapterError::InvalidChain);
        }
        if is_zero_address(&contract) {
            return Err(WormholeGuardiansAdapterError::InvalidPeerZeroAddress);
        }
        if self.peers.contains_key(&chain) {
            return Err(WormholeGuardiansAdapterError::PeerAlreadySet);
        }
        self.peers.insert(chain, contract);
        Ok(())
    }
}

} // verus!
