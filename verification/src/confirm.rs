//! Confirmation-depth verification: an event may be relayed only once its
//! block is buried under the configured number of subsequent blocks.

use vstd::prelude::*;

verus! {

use crate::config::BridgeConfig;
use crate::error::{BridgeError, BridgeResult};
use crate::types::BridgeEvent;

/// The event in block `event_block` has enough confirmations at height
/// `current_height` exactly when `current_height - event_block >= threshold`
/// (and the height has not fallen behind the event's block).
pub open spec fn confirmations_met(current_height: u64, event_block: u64, threshold: u64) -> bool {
    current_height >= event_block && current_height - event_block >= threshold
}

/// The boundary of the confirmation rule: depth exactly `threshold`
/// suffices, depth `threshold - 1` does not.
pub proof fn lemma_confirmation_boundary(event_block: u64, threshold: u64)
    requires
        event_block + threshold <= u64::MAX,
        threshold >= 1,
    ensures
        confirmations_met((event_block + threshold) as u64, event_block, threshold),
        !confirmations_met((event_block + threshold - 1) as u64, event_block, threshold),
{
}

/// How long to wait before re-checking the confirmation depth of an event
/// that is not final yet, in milliseconds.
pub const CONFIRMATION_POLL_INTERVAL_MS: u64 = 15000;

/// How many re-checks to make for one sighting of an event before giving
/// up on it; the record stays `Pending` and resumable.
pub const CONFIRMATION_POLL_LIMIT: u64 = 120;

/// What the monitor should do about an event that is not final yet.
#[derive(PartialEq, Eq, Structural, Clone, Copy, Debug)]
pub enum WaitDecision {
    /// Re-check the depth after this many milliseconds.
    WaitMs(u64),
    /// Stop re-checking for this sighting; the record stays resumable.
    GiveUp,
}

/// The confirmation re-poll policy: an event that is not final yet is
/// re-checked after a fixed interval, up to a bounded number of polls per
/// sighting, after which it is reported and left `Pending` — never failed.
pub fn next_confirmation_wait(polls_so_far: u64) -> (r: WaitDecision)
    ensures
        polls_so_far < CONFIRMATION_POLL_LIMIT ==> r == WaitDecision::WaitMs(
            CONFIRMATION_POLL_INTERVAL_MS,
        ),
        polls_so_far >= CONFIRMATION_POLL_LIMIT ==> r == WaitDecision::GiveUp,
{
    if polls_so_far < CONFIRMATION_POLL_LIMIT {
        WaitDecision::WaitMs(CONFIRMATION_POLL_INTERVAL_MS)
    } else {
        WaitDecision::GiveUp
    }
}

/// Checks that `event` is final enough to relay, given the origin chain's
/// current height. Succeeds exactly when the confirmation depth is met;
/// failure is the retryable "not yet" signal, not a terminal error.
pub fn verify_confirmations(cfg: &BridgeConfig, event: &BridgeEvent, current_height: u64) -> (r:
    BridgeResult<()>)
    ensures
        r is Ok <==> confirmations_met(current_height, event.block_number, cfg.confirmation_blocks),
        r is Err ==> r->Err_0 is MessageVerificationError,
{
    if current_height >= event.block_number && current_height - event.block_number
        >= cfg.confirmation_blocks {
        Result::Ok(())
    } else {
        Result::Err(BridgeError::MessageVerificationError("Not enough confirmations".to_owned()))
    }
}

} // verus!
