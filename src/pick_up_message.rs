//! Outbound path: a message picked up from the endpoint's outbox is published through Wormhole.
//!
//! Once the endpoint has handed the message over, the adapter plans the rest as a list of steps
//! that the caller runs in order, stopping at the first one that fails: the core bridge's
//! publication fee when it is not zero, then the publication of the encoded envelope under
//! the adapter's emitter identity.
use vstd::prelude::*;

use crate::config::{Config, Finality};
use crate::guardian_message::GuardianMessage;

verus! {

/// One step of publishing a picked-up message.
#[derive(Debug, PartialEq, Eq)]
pub enum RelayStep {
    /// Move exactly `lamports` from the payer to the core bridge's fee collector.
    PayFee { lamports: u64 },
    /// Publish `payload` through the core bridge, final at `finality`.
    PostMessage { payload: Vec<u8>, finality: Finality },
}

/// `steps` publish `message` at `finality`, paying `fee` first when it is not zero.
pub open spec fn is_relay_plan(steps: Seq<RelayStep>, message: GuardianMessage, fee: u64, finality: Finality) -> bool {
    let post = steps.last();
    &&& steps.len() == if fee > 0 { 2int } else { 1int }
    &&& fee > 0 ==> steps[0] == RelayStep::PayFee { lamports: fee }
    &&& post matches RelayStep::PostMessage { payload, finality: f } && payload@ == message.encoded()
        && f == finality
}

/// Plans the publication of `message`, just picked up from the outbox, when the core bridge
/// asks `fee` lamports per message.
pub fn pick_up_message(config: &Config, message: &GuardianMessage, fee: u64) -> (r: Vec<RelayStep>)
    ensures
        is_relay_plan(r@, *message, fee, config.consistency_level),
{
    let mut steps: Vec<RelayStep> = Vec::new();
    if fee > 0 {
        steps.push(RelayStep::PayFee { lamports: fee });
    }
    let payload = message.encode();
    steps.push(RelayStep::PostMessage { payload, finality: config.consistency_level });
    steps
}

/// A relay plan publishes once, and pays a fee step only when the fee is not zero: then exactly
/// one, of exactly the fee, and before the publication.
pub proof fn lemma_fee_paid_once_before_post(
    steps: Seq<RelayStep>,
    message: GuardianMessage,
    fee: u64,
    finality: Finality,
)
    requires
        is_relay_plan(steps, message, fee, finality),
    ensures
        (forall|i: int, j: int|
            0 <= i < steps.len() && 0 <= j < steps.len() && (#[trigger] steps[i] is PostMessage)
                && (#[trigger] steps[j] is PostMessage) ==> i == j),
        fee == 0 ==> (forall|i: int| 0 <= i < steps.len() ==> !(#[trigger] steps[i] is PayFee)),
        fee > 0 ==> (forall|i: int|
            0 <= i < steps.len() && (#[trigger] steps[i] is PayFee) ==> i == 0 && steps[i]
                == (RelayStep::PayFee { lamports: fee }) && (steps[1] is PostMessage)),
{
}

} // verus!
