use wormhole_guardian_adapter::admin::{
    claim_admin, discard_admin, initialize, set_peer, transfer_admin, update_admin, InitializeArgs,
    SetPeerArgs, TransferAdminArgs, UpdateAdminArgs,
};
use wormhole_guardian_adapter::config::{Config, Finality};
use wormhole_guardian_adapter::error::WormholeGuardiansAdapterError;
use wormhole_guardian_adapter::event::{AdminDiscarded, AdminUpdateRequested, AdminUpdated, PeerAdded};
use wormhole_guardian_adapter::peer::{Peer, PeerRegistry};

const A: [u8; 32] = [0xa1; 32];
const B: [u8; 32] = [0xb2; 32];
const C: [u8; 32] = [0xc3; 32];
const ZERO: [u8; 32] = [0; 32];

fn active(admin: [u8; 32]) -> Config {
    let mut slot = None;
    initialize(
        &mut slot,
        InitializeArgs { admin, wormhole_program: [0x77; 32], consistency_level: Finality::Finalized },
    )
    .unwrap();
    slot.unwrap()
}

#[test]
fn initialize_creates_active_config_once() {
    let mut slot = None;
    let args = InitializeArgs { admin: A, wormhole_program: [0x77; 32], consistency_level: Finality::Confirmed };
    assert_eq!(initialize(&mut slot, args), Ok(()));
    let expected = Config {
        admin: Some(A),
        pending_admin: None,
        wormhole_program: [0x77; 32],
        consistency_level: Finality::Confirmed,
    };
    assert_eq!(slot, Some(expected));
    let again = InitializeArgs { admin: B, wormhole_program: [0x66; 32], consistency_level: Finality::Finalized };
    assert_eq!(initialize(&mut slot, again), Err(WormholeGuardiansAdapterError::AlreadyInitialized));
    assert_eq!(slot, Some(expected));
}

#[test]
fn two_step_transfer_hands_over_to_claimer() {
    let mut config = active(A);
    assert_eq!(
        transfer_admin(&mut config, A, TransferAdminArgs { new_admin: B }),
        Ok(AdminUpdateRequested { current_admin: A, proposed_admin: B })
    );
    assert_eq!(config.admin, Some(A));
    assert_eq!(config.pending_admin, Some(B));
    assert_eq!(claim_admin(&mut config, B), Ok(AdminUpdated { old_admin: Some(A), new_admin: B }));
    assert_eq!(config.admin, Some(B));
    assert_eq!(config.pending_admin, None);
}

#[test]
fn claim_without_pending_transfer_fails() {
    let mut config = active(A);
    let before = config;
    assert_eq!(claim_admin(&mut config, A), Err(WormholeGuardiansAdapterError::NoAdminUpdatePending));
    assert_eq!(claim_admin(&mut config, B), Err(WormholeGuardiansAdapterError::NoAdminUpdatePending));
    assert_eq!(config, before);
}

#[test]
fn claim_by_anyone_but_the_successor_fails() {
    let mut config = active(A);
    transfer_admin(&mut config, A, TransferAdminArgs { new_admin: B }).unwrap();
    let before = config;
    assert_eq!(claim_admin(&mut config, C), Err(WormholeGuardiansAdapterError::CallerNotAdmin));
    assert_eq!(claim_admin(&mut config, A), Err(WormholeGuardiansAdapterError::CallerNotAdmin));
    assert_eq!(config, before);
}

#[test]
fn transfer_while_pending_fails() {
    let mut config = active(A);
    transfer_admin(&mut config, A, TransferAdminArgs { new_admin: B }).unwrap();
    let before = config;
    assert_eq!(
        transfer_admin(&mut config, A, TransferAdminArgs { new_admin: C }),
        Err(WormholeGuardiansAdapterError::AdminTransferPending)
    );
    assert_eq!(
        transfer_admin(&mut config, C, TransferAdminArgs { new_admin: ZERO }),
        Err(WormholeGuardiansAdapterError::AdminTransferPending)
    );
    assert_eq!(
        update_admin(&mut config, A, UpdateAdminArgs { new_admin: C }),
        Err(WormholeGuardiansAdapterError::AdminTransferPending)
    );
    assert_eq!(discard_admin(&mut config, A), Err(WormholeGuardiansAdapterError::AdminTransferPending));
    assert_eq!(config, before);
}

#[test]
fn transfer_by_non_admin_fails() {
    let mut config = active(A);
    assert_eq!(
        transfer_admin(&mut config, B, TransferAdminArgs { new_admin: C }),
        Err(WormholeGuardiansAdapterError::CallerNotAdmin)
    );
    assert_eq!(config.pending_admin, None);
}

#[test]
fn zero_admin_is_refused() {
    let mut config = active(A);
    assert_eq!(
        transfer_admin(&mut config, A, TransferAdminArgs { new_admin: ZERO }),
        Err(WormholeGuardiansAdapterError::InvalidAdminZeroAddress)
    );
    assert_eq!(
        update_admin(&mut config, A, UpdateAdminArgs { new_admin: ZERO }),
        Err(WormholeGuardiansAdapterError::InvalidAdminZeroAddress)
    );
    assert_eq!(config, active(A));
}

#[test]
fn update_admin_replaces_at_once() {
    let mut config = active(A);
    assert_eq!(
        update_admin(&mut config, A, UpdateAdminArgs { new_admin: C }),
        Ok(AdminUpdated { old_admin: Some(A), new_admin: C })
    );
    assert_eq!(config.admin, Some(C));
    assert_eq!(config.pending_admin, None);
    assert_eq!(
        update_admin(&mut config, A, UpdateAdminArgs { new_admin: B }),
        Err(WormholeGuardiansAdapterError::CallerNotAdmin)
    );
}

#[test]
fn discarded_admin_locks_out_everyone() {
    let mut config = active(A);
    assert_eq!(discard_admin(&mut config, A), Ok(AdminDiscarded { admin: A }));
    assert_eq!(config.admin, None);
    assert_eq!(config.pending_admin, None);
    let before = config;
    let mut peers = PeerRegistry::new();
    for who in [A, B, ZERO] {
        assert_eq!(
            transfer_admin(&mut config, who, TransferAdminArgs { new_admin: B }),
            Err(WormholeGuardiansAdapterError::CallerNotAdmin)
        );
        assert_eq!(
            update_admin(&mut config, who, UpdateAdminArgs { new_admin: B }),
            Err(WormholeGuardiansAdapterError::CallerNotAdmin)
        );
        assert_eq!(discard_admin(&mut config, who), Err(WormholeGuardiansAdapterError::CallerNotAdmin));
        assert_eq!(
            set_peer(&config, &mut peers, who, SetPeerArgs { peer_chain: 2, peer_contract: [0x11; 32] }),
            Err(WormholeGuardiansAdapterError::CallerNotAdmin)
        );
        assert_eq!(claim_admin(&mut config, who), Err(WormholeGuardiansAdapterError::NoAdminUpdatePending));
    }
    assert_eq!(config, before);
    assert_eq!(peers.lookup(2), None);
}

#[test]
fn set_peer_registers_once() {
    let config = active(A);
    let mut peers = PeerRegistry::new();
    assert_eq!(
        set_peer(&config, &mut peers, A, SetPeerArgs { peer_chain: 2, peer_contract: [0x11; 32] }),
        Ok(PeerAdded { chain: 2, peer_contract: [0x11; 32] })
    );
    assert_eq!(peers.lookup(2), Some(Peer { chain: 2, contract: [0x11; 32] }));
    assert_eq!(
        set_peer(&config, &mut peers, A, SetPeerArgs { peer_chain: 2, peer_contract: [0x22; 32] }),
        Err(WormholeGuardiansAdapterError::PeerAlreadySet)
    );
    assert_eq!(
        set_peer(&config, &mut peers, A, SetPeerArgs { peer_chain: 2, peer_contract: [0x11; 32] }),
        Err(WormholeGuardiansAdapterError::PeerAlreadySet)
    );
    assert_eq!(peers.lookup(2), Some(Peer { chain: 2, contract: [0x11; 32] }));
    assert_eq!(peers.lookup(3), None);
}

#[test]
fn set_peer_refuses_zero_values_and_strangers() {
    let config = active(A);
    let mut peers = PeerRegistry::new();
    assert_eq!(
        set_peer(&config, &mut peers, A, SetPeerArgs { peer_chain: 0, peer_contract: [0x11; 32] }),
        Err(WormholeGuardiansAdapterError::InvalidChain)
    );
    assert_eq!(
        set_peer(&config, &mut peers, A, SetPeerArgs { peer_chain: 5, peer_contract: ZERO }),
        Err(WormholeGuardiansAdapterError::InvalidPeerZeroAddress)
    );
    assert_eq!(
        set_peer(&config, &mut peers, B, SetPeerArgs { peer_chain: 5, peer_contract: [0x11; 32] }),
        Err(WormholeGuardiansAdapterError::CallerNotAdmin)
    );
    assert_eq!(peers.lookup(0), None);
    assert_eq!(peers.lookup(5), None);
}

#[test]
fn register_checks_in_order() {
    let mut peers = PeerRegistry::new();
    assert_eq!(peers.register(0, ZERO), Err(WormholeGuardiansAdapterError::InvalidChain));
    assert_eq!(peers.register(7, ZERO), Err(WormholeGuardiansAdapterError::InvalidPeerZeroAddress));
    assert_eq!(peers.register(7, [0x01; 32]), Ok(()));
    assert_eq!(peers.register(7, [0x02; 32]), Err(WormholeGuardiansAdapterError::PeerAlreadySet));
    assert_eq!(peers.register(u16::MAX, [0x03; 32]), Ok(()));
    assert_eq!(peers.lookup(u16::MAX), Some(Peer { chain: u16::MAX, contract: [0x03; 32] }));
}
