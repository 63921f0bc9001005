//! Creation of the configuration, the admin-authority state machine and peer registration.
//!
//! States of the authority: `Active(a)` (`admin == Some(a)`, no pending successor),
//! `TransferPending(a, p)` (`admin == Some(a)`, `pending_admin == Some(p)`), and `Discarded`
//! (`admin == None`), which no operation leaves.
//!
//! A pending transfer is completed by the proposed successor alone: the current admin cannot claim
//! on the successor's behalf.
use vstd::prelude::*;

use crate::bytes::{is_zero_address, zero_address};
use crate::config::{Config, Finality};
use crate::error::WormholeGuardiansAdapterError;
use crate::event::{AdminDiscarded, AdminUpdateRequested, AdminUpdated, PeerAdded};
use crate::peer::{register_outcome, PeerRegistry};

verus! {

/// Settings for a new configuration.
#[derive(Debug, Clone, Copy, PartialEq, Eq)]
pub struct InitializeArgs {
    pub admin: [u8; 32],
    pub wormhole_program: [u8; 32],
    pub consistency_level: Finality,
}

#[derive(Debug, Clone, Copy, PartialEq, Eq)]
pub struct TransferAdminArgs {
    pub new_admin: [u8; 32],
}

#[derive(Debug, Clone, Copy, PartialEq, Eq)]
pub struct UpdateAdminArgs {
    pub new_admin: [u8; 32],
}

#[derive(Debug, Clone, Copy, PartialEq, Eq)]
pub struct SetPeerArgs {
    pub peer_chain: u16,
    pub peer_contract: [u8; 32],
}

/// The configuration that `initialize` creates from `args`.
pub open spec fn initial_config(args: InitializeArgs) -> Config {
    Config {
        admin: Some(args.admin),
        pending_admin: None,
        wormhole_program: args.wormhole_program,
        consistency_level: args.consistency_level,
    }
}

/// The configuration after `caller` proposes `new_admin`, or why the proposal is refused.
pub open spec fn transfer_admin_outcome(c: Config, caller: [u8; 32], new_admin: [u8; 32]) -> Result<
    Config,
    WormholeGuardiansAdapterError,
> {
    if c.pending_admin is Some {
        Err(WormholeGuardiansAdapterError::AdminTransferPending)
    } else if c.admin != Some(caller) {
        Err(WormholeGuardiansAdapterError::CallerNotAdmin)
    } else if new_admin@ == zero_address() {
        Err(WormholeGuardiansAdapterError::InvalidAdminZeroAddress)
    } else {
        Ok(Config { pending_admin: Some(new_admin), ..c })
    }
}

/// The configuration after `caller` claims a pending transfer, or why the claim is refused.
pub open spec fn claim_admin_outcome(c: Config, caller: [u8; 32]) -> Result<
    Config,
    WormholeGuardiansAdapterError,
> {
    if c.pending_admin is None {
        Err(WormholeGuardiansAdapterError::NoAdminUpdatePending)
    } else if c.pending_admin != Some(caller) {
        Err(WormholeGuardiansAdapterError::CallerNotAdmin)
    } else {
        Ok(Config { admin: Some(caller), pending_admin: None, ..c })
    }
}

/// The configuration after `caller` hands the role to `new_admin` at once, or why that is refused.
pub open spec fn update_admin_outcome(c: Config, caller: [u8; 32], new_admin: [u8; 32]) -> Result<
    Config,
    WormholeGuardiansAdapterError,
> {
    if c.pending_admin is Some {
        Err(WormholeGuardiansAdapterError::AdminTransferPending)
    } else if c.admin != Some(caller) {
        Err(WormholeGuardiansAdapterError::CallerNotAdmin)
    } else if new_admin@ == zero_address() {
        Err(WormholeGuardiansAdapterError::InvalidAdminZeroAddress)
    } else {
        Ok(Config { admin: Some(new_admin), pending_admin: None, ..c })
    }
}

/// The configuration after `caller` gives up the role, or why that is refused.
pub open spec fn discard_admin_outcome(c: Config, caller: [u8; 32]) -> Result<
    Config,
    WormholeGuardiansAdapterError,
> {
    if c.pending_admin is Some {
        Err(WormholeGuardiansAdapterError::AdminTransferPending)
    } else if c.admin != Some(caller) {
        Err(WormholeGuardiansAdapterError::CallerNotAdmin)
    } else {
        Ok(Config { admin: None, ..c })
    }
}

/// The registry after `caller` registers `contract` for `chain`, or why that is refused.
pub open spec fn set_peer_outcome(
    c: Config,
    peers: Map<u16, [u8; 32]>,
    caller: [u8; 32],
    chain: u16,
    contract: [u8; 32],
) -> Result<Map<u16, [u8; 32]>, WormholeGuardiansAdapterError> {
    if c.admin != Some(caller) {
        Err(WormholeGuardiansAdapterError::CallerNotAdmin)
    } else {
        register_outcome(peers, chain, contract)
    }
}

/// Creates the configuration; it can be created only once.
pub fn initialize(config: &mut Option<Config>, args: InitializeArgs) -> (r: Result<
    (),
    WormholeGuardiansAdapterError,
>)
    ensures
        *old(config) is Some ==> r == Err::<(), _>(WormholeGuardiansAdapterError::AlreadyInitialized)
            && *final(config) == *old(config),
        *old(config) is None ==> r is Ok && *final(config) == Some(initial_config(args)),
{
    if config.is_some() {
        return Err(WormholeGuardiansAdapterError::AlreadyInitialized);
    }
    *config = Some(
        Config {
            admin: Some(args.admin),
            pending_admin: None,
            wormhole_program: args.wormhole_program,
            consistency_level: args.consistency_level,
        },
    );
    Ok(())
}

/// First step of a two-step transfer: the admin `caller` proposes `args.new_admin`.
pub fn transfer_admin(config: &mut Config, caller: [u8; 32], args: TransferAdminArgs) -> (r: Result<
    AdminUpdateRequested,
    WormholeGuardiansAdapterError,
>)
    ensures
        match transfer_admin_outcome(*old(config), caller, args.new_admin) {
            Ok(c) => *final(config) == c && r == Ok::<_, WormholeGuardiansAdapterError>(
                AdminUpdateRequested { current_admin: caller, proposed_admin: args.new_admin },
            ),
            Err(e) => *final(config) == *old(config) && r == Err::<AdminUpdateRequested, _>(e),
        },
{
    if config.pending_admin.is_some() {
        return Err(WormholeGuardiansAdapterError::AdminTransferPending);
    }
    if !config.is_admin(&caller) {
        return Err(WormholeGuardiansAdapterError::CallerNotAdmin);
    }
    if is_zero_address(&args.new_admin) {
        return Err(WormholeGuardiansAdapterError::InvalidAdminZeroAddress);
    }
    config.pending_admin = Some(args.new_admin);
    Ok(AdminUpdateRequested { current_admin: caller, proposed_admin: args.new_admin })
}

/// Second step of a two-step transfer: the proposed successor `caller` takes the role.
pub fn claim_admin(config: &mut Config, caller: [u8; 32]) -> (r: Result<
    AdminUpdated,
    WormholeGuardiansAdapterError,
>)
    ensures
        match claim_admin_outcome(*old(config), caller) {
            Ok(c) => *final(config) == c && r == Ok::<_, WormholeGuardiansAdapterError>(
                AdminUpdated { old_admin: old(config).admin, new_admin: caller },
            ),
            Err(e) => *final(config) == *old(config) && r == Err::<AdminUpdated, _>(e),
        },
{
    if config.pending_admin.is_none() {
        return Err(WormholeGuardiansAdapterError::NoAdminUpdatePending);
    }
    if !config.is_pending_admin(&caller) {
        return Err(WormholeGuardiansAdapterError::CallerNotAdmin);
    }
    let old_admin = config.admin;
    config.admin = Some(caller);
    config.pending_admin = None;
    Ok(AdminUpdated { old_admin, new_admin: caller })
}

/// Hands the role from the admin `caller` to `args.new_admin` in one step.
pub fn update_admin(config: &mut Config, caller: [u8; 32], args: UpdateAdminArgs) -> (r: Result<
    AdminUpdated,
    WormholeGuardiansAdapterError,
>)
    ensures
        match update_admin_outcome(*old(config), caller, args.new_admin) {
            Ok(c) => *final(config) == c && r == Ok::<_, WormholeGuardiansAdapterError>(
                AdminUpdated { old_admin: old(config).admin, new_admin: args.new_admin },
            ),
            Err(e) => *final(config) == *old(config) && r == Err::<AdminUpdated, _>(e),
        },
{
    if config.pending_admin.is_some() {
        return Err(WormholeGuardiansAdapterError::AdminTransferPending);
    }
    if !config.is_admin(&caller) {
        return Err(WormholeGuardiansAdapterError::CallerNotAdmin);
    }
    if is_zero_address(&args.new_admin) {
        return Err(WormholeGuardiansAdapterError::InvalidAdminZeroAddress);
    }
    let old_admin = config.admin;
    config.admin = Some(args.new_admin);
    config.pending_admin = None;
    Ok(AdminUpdated { old_admin, new_admin: args.new_admin })
}

/// The admin `caller` gives up the role for good.
pub fn discard_admin(config: &mut Config, caller: [u8; 32]) -> (r: Result<
    AdminDiscarded,
    WormholeGuardiansAdapterError,
>)
    ensures
        match discard_admin_outcome(*old(config), caller) {
            Ok(c) => *final(config) == c && r == Ok::<_, WormholeGuardiansAdapterError>(
                AdminDiscarded { admin: caller },
            ),
            Err(e) => *final(config) == *old(config) && r == Err::<AdminDiscarded, _>(e),
        },
{
    if config.pending_admin.is_some() {
        return Err(WormholeGuardiansAdapterError::AdminTransferPending);
    }
    if !config.is_admin(&caller) {
        return Err(WormholeGuardiansAdapterError::CallerNotAdmin);
    }
    config.admin = None;
    Ok(AdminDiscarded { admin: caller })
}

/// The admin `caller` registers the peer contract of a remote chain.
pub fn set_peer(config: &Config, peers: &mut PeerRegistry, caller: [u8; 32], args: SetPeerArgs) -> (r:
    Result<PeerAdded, WormholeGuardiansAdapterError>)
    ensures
        match set_peer_outcome(*config, old(peers)@, caller, args.peer_chain, args.peer_contract) {
            Ok(m) => final(peers)@ == m && r == Ok::<_, WormholeGuardiansAdapterError>(
                PeerAdded { chain: args.peer_chain, peer_contract: args.peer_contract },
            ),
            Err(e) => final(peers)@ == old(peers)@ && r == Err::<PeerAdded, _>(e),
        },
{
    if !config.is_admin(&caller) {
        return Err(WormholeGuardiansAdapterError::CallerNotAdmin);
    }
    match peers.register(args.peer_chain, args.peer_contract) {
        Ok(()) => Ok(PeerAdded { chain: args.peer_chain, peer_contract: args.peer_contract }),
        Err(e) => Err(e),
    }
}

/// An administrative operation as a caller issues it; used to state what holds of every sequence
/// of them.
pub enum AdminOp {
    TransferAdmin { caller: [u8; 32], new_admin: [u8; 32] },
    ClaimAdmin { caller: [u8; 32] },
    UpdateAdmin { caller: [u8; 32], new_admin: [u8; 32] },
    DiscardAdmin { caller: [u8; 32] },
    SetPeer { caller: [u8; 32], chain: u16, contract: [u8; 32] },
}

/// The configuration and registry after `op`, or why `op` is refused.
pub open spec fn admin_op_outcome(c: Config, peers: Map<u16, [u8; 32]>, op: AdminOp) -> Result<
    (Config, Map<u16, [u8; 32]>),
    WormholeGuardiansAdapterError,
> {
    match op {
        AdminOp::TransferAdmin { caller, new_admin } => match transfer_admin_outcome(c, caller, new_admin) {
            Ok(c2) => Ok((c2, peers)),
            Err(e) => Err(e),
        },
        AdminOp::ClaimAdmin { caller } => match claim_admin_outcome(c, caller) {
            Ok(c2) => Ok((c2, peers)),
            Err(e) => Err(e),
        },
        AdminOp::UpdateAdmin { caller, new_admin } => match update_admin_outcome(c, caller, new_admin) {
            Ok(c2) => Ok((c2, peers)),
            Err(e) => Err(e),
        },
        AdminOp::DiscardAdmin { caller } => match discard_admin_outcome(c, caller) {
            Ok(c2) => Ok((c2, peers)),
            Err(e) => Err(e),
        },
        AdminOp::SetPeer { caller, chain, contract } => match set_peer_outcome(c, peers, caller, chain, contract) {
            Ok(p2) => Ok((c, p2)),
            Err(e) => Err(e),
        },
    }
}

/// The configuration and registry after running `ops` in order; a refused operation changes nothing.
pub open spec fn run_admin_ops(c: Config, peers: Map<u16, [u8; 32]>, ops: Seq<AdminOp>) -> (Config, Map<
    u16,
    [u8; 32],
>)
    decreases ops.len(),
{
    if ops.len() == 0 {
        (c, peers)
    } else {
        let (c1, p1) = match admin_op_outcome(c, peers, ops[0]) {
            Ok(next) => next,
            Err(_) => (c, peers),
        };
        run_admin_ops(c1, p1, ops.drop_first())
    }
}

/// Once a chain has a peer, registering it again fails with `PeerAlreadySet`, whatever the
/// (non-zero) contract: the registry never reassigns trust.
pub proof fn lemma_peer_registration_is_final(
    peers: Map<u16, [u8; 32]>,
    chain: u16,
    first: [u8; 32],
    second: [u8; 32],
)
    requires
        register_outcome(peers, chain, first) is Ok,
        second@ != zero_address(),
    ensures
        register_outcome(register_outcome(peers, chain, first)->Ok_0, chain, second) == Err::<
            Map<u16, [u8; 32]>,
            _,
        >(WormholeGuardiansAdapterError::PeerAlreadySet),
{
}

/// Zero values are refused: chain id 0 and the zero contract by the registry, the zero address as
/// a new admin by an admin with no transfer pending.
pub proof fn lemma_zero_values_rejected(
    c: Config,
    peers: Map<u16, [u8; 32]>,
    caller: [u8; 32],
    chain: u16,
    contract: [u8; 32],
    zero: [u8; 32],
)
    requires
        zero@ == zero_address(),
    ensures
        register_outcome(peers, 0, contract) == Err::<Map<u16, [u8; 32]>, _>(
            WormholeGuardiansAdapterError::InvalidChain,
        ),
        chain != 0 ==> register_outcome(peers, chain, zero) == Err::<Map<u16, [u8; 32]>, _>(
            WormholeGuardiansAdapterError::InvalidPeerZeroAddress,
        ),
        c.pending_admin is None && c.admin == Some(caller) ==> transfer_admin_outcome(c, caller, zero)
            == Err::<Config, _>(WormholeGuardiansAdapterError::InvalidAdminZeroAddress),
        c.pending_admin is None && c.admin == Some(caller) ==> update_admin_outcome(c, caller, zero)
            == Err::<Config, _>(WormholeGuardiansAdapterError::InvalidAdminZeroAddress),
{
}

/// With no transfer pending, a claim fails with `NoAdminUpdatePending`, whoever makes it.
pub proof fn lemma_claim_needs_pending_transfer(c: Config, caller: [u8; 32])
    requires
        c.pending_admin is None,
    ensures
        claim_admin_outcome(c, caller) == Err::<Config, _>(
            WormholeGuardiansAdapterError::NoAdminUpdatePending,
        ),
{
}

/// While a transfer is pending, a new transfer fails with `AdminTransferPending`, whoever makes it
/// and whoever it proposes.
pub proof fn lemma_no_transfer_while_pending(c: Config, caller: [u8; 32], new_admin: [u8; 32])
    requires
        c.pending_admin is Some,
    ensures
        transfer_admin_outcome(c, caller, new_admin) == Err::<Config, _>(
            WormholeGuardiansAdapterError::AdminTransferPending,
        ),
{
}

/// From a discarded authority every operation fails, the admin-gated ones with `CallerNotAdmin`
/// and a claim with `NoAdminUpdatePending`, so no sequence of operations changes anything.
pub proof fn lemma_discarded_is_terminal(c: Config, peers: Map<u16, [u8; 32]>, ops: Seq<AdminOp>)
    requires
        c.is_discarded(),
    ensures
        forall|op: AdminOp|
            !(op is ClaimAdmin) ==> #[trigger] admin_op_outcome(c, peers, op) == Err::<
                (Config, Map<u16, [u8; 32]>),
                _,
            >(WormholeGuardiansAdapterError::CallerNotAdmin),
        forall|caller: [u8; 32]|
            #[trigger] claim_admin_outcome(c, caller) == Err::<Config, _>(
                WormholeGuardiansAdapterError::NoAdminUpdatePending,
            ),
        run_admin_ops(c, peers, ops) == (c, peers),
    decreases ops.len(),
{
    if ops.len() > 0 {
        lemma_discarded_is_terminal(c, peers, ops.drop_first());
    }
}

/// A successful discard leaves the authority discarded.
pub proof fn lemma_discard_reaches_terminal(c: Config, caller: [u8; 32])
    requires
        discard_admin_outcome(c, caller) is Ok,
    ensures
        (discard_admin_outcome(c, caller)->Ok_0).is_discarded(),
{
}

} // verus!
