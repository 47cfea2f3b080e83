//! Relay dispatch: classification of submission failures, bounded
//! exponential backoff, and the settlement of each submission attempt
//! against the dedup store's state machine.

use vstd::prelude::*;

verus! {

use crate::error::BridgeError;
use crate::store::{failed_record, executed_record, store_step, DedupStore};
use crate::types::CrossChainMessage;

/// First retry delay after a transient submission failure, in milliseconds.
pub const BASE_BACKOFF_MS: u64 = 500;

/// Upper bound on the retry delay, in milliseconds.
pub const MAX_BACKOFF_MS: u64 = 60000;

/// Bound on submission attempts per message before it is abandoned.
pub const MAX_SUBMIT_ATTEMPTS: u64 = 5;

/// How an error bears on the relay's control flow.
#[derive(PartialEq, Eq, Structural, Clone, Copy, Debug)]
pub enum ErrorClass {
    /// Transient: retry the same work with backoff.
    Retry,
    /// Permanent for this message; the monitor loop goes on.
    Terminal,
    /// The exactly-once guarantee is unverifiable: pause relay dispatch.
    Halt,
}

/// The propagation policy: chain communication failures are retried;
/// provider, store and key failures halt dispatch; everything else is
/// terminal for the one message.
pub open spec fn classify_spec(e: BridgeError) -> ErrorClass {
    match e {
        BridgeError::ChainCommunicationError(_) => ErrorClass::Retry,
        BridgeError::ProviderError(_) => ErrorClass::Halt,
        BridgeError::DatabaseError(_) => ErrorClass::Halt,
        BridgeError::SignatureError(_) => ErrorClass::Halt,
        BridgeError::MessageVerificationError(_) => ErrorClass::Terminal,
        BridgeError::ContractError(_) => ErrorClass::Terminal,
        BridgeError::ConfigError(_) => ErrorClass::Terminal,
    }
}

/// Classifies an error per the propagation policy.
pub fn classify_error(e: &BridgeError) -> (r: ErrorClass)
    ensures
        r == classify_spec(*e),
{
    match e {
        BridgeError::ChainCommunicationError(_) => ErrorClass::Retry,
        BridgeError::ProviderError(_) => ErrorClass::Halt,
        BridgeError::DatabaseError(_) => ErrorClass::Halt,
        BridgeError::SignatureError(_) => ErrorClass::Halt,
        BridgeError::MessageVerificationError(_) => ErrorClass::Terminal,
        BridgeError::ContractError(_) => ErrorClass::Terminal,
        BridgeError::ConfigError(_) => ErrorClass::Terminal,
    }
}

/// Two to the power `n`.
pub open spec fn pow2(n: nat) -> nat
    decreases n,
{
    if n == 0 {
        1
    } else {
        2 * pow2((n - 1) as nat)
    }
}

/// The delay before retry number `attempt + 1`: exponential in the number
/// of attempts already made, capped at `MAX_BACKOFF_MS`.
pub open spec fn backoff_spec(attempt: nat) -> nat {
    if BASE_BACKOFF_MS * pow2(attempt) > MAX_BACKOFF_MS {
        MAX_BACKOFF_MS as nat
    } else {
        (BASE_BACKOFF_MS * pow2(attempt)) as nat
    }
}

/// Computes the capped exponential backoff delay after `attempt` failed
/// submission attempts.
pub fn backoff_delay_ms(attempt: u64) -> (r: u64)
    ensures
        r == backoff_spec(attempt as nat),
{
    let mut delay: u64 = BASE_BACKOFF_MS;
    let mut i: u64 = 0;
    while i < attempt
        invariant
            0 <= i <= attempt,
            delay == backoff_spec(i as nat),
        decreases attempt - i,
    {
        proof {
            assert(pow2((i + 1) as nat) == 2 * pow2(i as nat));
            assert(BASE_BACKOFF_MS * pow2((i + 1) as nat) == 2 * (BASE_BACKOFF_MS * pow2(
                i as nat,
            ))) by (nonlinear_arith);
        }
        if delay < MAX_BACKOFF_MS {
            delay = if delay > MAX_BACKOFF_MS / 2 {
                MAX_BACKOFF_MS
            } else {
                delay * 2
            };
        } else {
            proof {
                assert(BASE_BACKOFF_MS * pow2(i as nat) >= MAX_BACKOFF_MS);
                assert(BASE_BACKOFF_MS * pow2((i + 1) as nat) > MAX_BACKOFF_MS);
            }
        }
        i += 1;
    }
    delay
}

/// What the destination chain answered to one submission attempt.
#[derive(Debug)]
pub enum SubmissionOutcome {
    /// The transaction was accepted on chain.
    Accepted,
    /// The bridge contract rejected the transaction; terminal.
    ContractRejected(String),
    /// The submission did not reach the chain; transient.
    TransportFailed(String),
}

/// What the relay must do next with a message after one submission attempt.
#[derive(PartialEq, Eq, Structural, Clone, Copy, Debug)]
pub enum DispatchAction {
    /// Delivered and recorded `Executed`; nothing left to do.
    Done,
    /// Try the same submission again after this many milliseconds.
    RetryAfterMs(u64),
    /// The message was terminally abandoned and recorded `Failed`.
    Abandoned,
}

/// Settles one submission attempt of a reserved message against the store.
///
/// Acceptance records `Executed` and advances the sender's nonce index; a
/// contract-level reject records `Failed`; a transport failure leaves the
/// store untouched and asks for a bounded, backed-off retry until the
/// attempt budget is spent, after which the message is recorded `Failed`.
pub fn settle_submission(
    store: &mut DedupStore,
    msg: &CrossChainMessage,
    outcome: SubmissionOutcome,
    attempt: u64,
) -> (r: DispatchAction)
    requires
        old(store).wf(),
        msg.wf(),
    ensures
        final(store).wf(),
        store_step(old(store).status_map(), final(store).status_map()),
        outcome is Accepted ==> {
            &&& r == DispatchAction::Done
            &&& (old(store).status_map().contains_key(msg@.message_id) && old(store).status_map()[msg@.message_id].execution_status is Confirmed) ==> final(store).status_map() == old(store).status_map().insert(
                msg@.message_id,
                executed_record(
                    msg@.message_id,
                    old(store).status_map()[msg@.message_id].confirmed_block,
                ),
            ) && final(store).nonce_map() == old(store).nonce_map().insert(
                (msg@.sender, msg@.source_chain_id),
                msg@.nonce_nat(),
            )
            &&& !(old(store).status_map().contains_key(msg@.message_id) && old(store).status_map()[msg@.message_id].execution_status is Confirmed) ==> final(store).status_map() == old(store).status_map() && final(store).nonce_map() == old(store).nonce_map()
        },
        outcome matches SubmissionOutcome::ContractRejected(reason) ==> {
            &&& r == DispatchAction::Abandoned
            &&& final(store).nonce_map() == old(store).nonce_map()
            &&& terminal_failure_recorded(
                old(store).status_map(),
                final(store).status_map(),
                msg@.message_id,
                reason@,
            )
        },
        outcome matches SubmissionOutcome::TransportFailed(reason) ==> {
            &&& attempt + 1 < MAX_SUBMIT_ATTEMPTS ==> r == DispatchAction::RetryAfterMs(
                backoff_spec(attempt as nat) as u64,
            ) && final(store).status_map() == old(store).status_map() && final(store).nonce_map()
                == old(store).nonce_map()
            &&& attempt + 1 >= MAX_SUBMIT_ATTEMPTS ==> r == DispatchAction::Abandoned
                && final(store).nonce_map() == old(store).nonce_map() && terminal_failure_recorded(
                old(store).status_map(),
                final(store).status_map(),
                msg@.message_id,
                reason@,
            )
        },
{
    match outcome {
        SubmissionOutcome::Accepted => {
            store.record_executed(msg);
            DispatchAction::Done
        },
        SubmissionOutcome::ContractRejected(reason) => {
            store.record_failed(&msg.message_id, reason);
            DispatchAction::Abandoned
        },
        SubmissionOutcome::TransportFailed(reason) => {
            if attempt < u64::MAX && attempt + 1 < MAX_SUBMIT_ATTEMPTS {
                DispatchAction::RetryAfterMs(backoff_delay_ms(attempt))
            } else {
                store.record_failed(&msg.message_id, reason);
                DispatchAction::Abandoned
            }
        },
    }
}

/// After a terminal submission failure, the message is recorded `Failed`
/// with the reason if its record was still live, and the store is unchanged
/// if the record was already terminal or never created.
pub open spec fn terminal_failure_recorded(
    pre: Map<Seq<u8>, crate::types::MessageStatusV>,
    post: Map<Seq<u8>, crate::types::MessageStatusV>,
    id: Seq<u8>,
    reason: Seq<char>,
) -> bool {
    if pre.contains_key(id) && !pre[id].execution_status.is_terminal() {
        post == pre.insert(id, failed_record(id, pre[id].confirmed_block, reason))
    } else {
        post == pre
    }
}

} // verus!
