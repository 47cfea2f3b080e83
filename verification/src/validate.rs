//! Message validation: chain-id correctness, duplicate short-circuit,
//! replay defense by strictly increasing nonces, and structural bounds.

use vstd::prelude::*;

verus! {

use crate::config::BridgeConfig;
use crate::error::{BridgeError, BridgeResult};
use crate::store::DedupStore;
use crate::types::{CrossChainMessage, CrossChainMessageV, MessageStatusV};

/// How validation classifies a message against the configuration and the
/// current store state.
pub enum ValidationVerdict {
    /// Every check passed; the message is new work.
    Accept,
    /// The id is already `Confirmed` or `Executed`: an idempotent no-op.
    AlreadyHandled,
    /// The source chain id names neither configured ledger.
    BadSourceChain,
    /// The destination chain id names neither configured ledger, or equals
    /// the source chain id.
    BadDestinationChain,
    /// The nonce does not exceed the last recorded nonce of its sender.
    StaleNonce,
    /// The transfer amount is zero.
    ZeroAmount,
    /// The opaque payload exceeds the configured maximum.
    OversizedPayload,
}

/// What validation of a fresh message reports to the pipeline.
#[derive(PartialEq, Eq, Structural, Clone, Copy, Debug)]
pub enum ValidationOutcome {
    /// New work: continue towards signing and submission.
    Fresh,
    /// Already `Confirmed` or `Executed`: short-circuit with no action.
    Duplicate,
}

/// Whether `id` was already recorded as reserved or delivered.
pub open spec fn duplicate_in_store(m: Map<Seq<u8>, MessageStatusV>, id: Seq<u8>) -> bool {
    m.contains_key(id) && (m[id].execution_status is Confirmed || m[id].execution_status
        is Executed)
}

/// Whether `nonce` strictly exceeds the last recorded nonce of
/// `(sender, source_chain)`; an unseen sender is always fresh.
pub open spec fn nonce_is_fresh(
    nm: Map<(Seq<u8>, u64), nat>,
    sender: Seq<u8>,
    source_chain: u64,
    nonce: nat,
) -> bool {
    !nm.contains_key((sender, source_chain)) || nm[(sender, source_chain)] < nonce
}

/// Whether both chain ids name configured ledgers and differ.
pub open spec fn chain_ids_ok(cfg: BridgeConfig, msg: CrossChainMessageV) -> bool {
    &&& cfg.is_configured_chain(msg.source_chain_id)
    &&& cfg.is_configured_chain(msg.destination_chain_id)
    &&& msg.source_chain_id != msg.destination_chain_id
}

/// The verdict of the validator, checks in order: source chain id,
/// destination chain id, duplicate short-circuit, nonce freshness, positive
/// amount, payload bound.
pub open spec fn validate_verdict(
    cfg: BridgeConfig,
    statuses: Map<Seq<u8>, MessageStatusV>,
    nonces: Map<(Seq<u8>, u64), nat>,
    msg: CrossChainMessageV,
) -> ValidationVerdict {
    if !cfg.is_configured_chain(msg.source_chain_id) {
        ValidationVerdict::BadSourceChain
    } else if !cfg.is_configured_chain(msg.destination_chain_id) || msg.destination_chain_id
        == msg.source_chain_id {
        ValidationVerdict::BadDestinationChain
    } else if duplicate_in_store(statuses, msg.message_id) {
        ValidationVerdict::AlreadyHandled
    } else if !nonce_is_fresh(nonces, msg.sender, msg.source_chain_id, msg.nonce_nat()) {
        ValidationVerdict::StaleNonce
    } else if msg.amount_nat() == 0 {
        ValidationVerdict::ZeroAmount
    } else if msg.data.len() > cfg.max_payload_bytes {
        ValidationVerdict::OversizedPayload
    } else {
        ValidationVerdict::Accept
    }
}

/// Replay defense: a message whose nonce does not exceed the last recorded
/// nonce of its sender on its source chain is always rejected, whatever
/// else holds of it, as long as it is not an already-handled duplicate.
pub proof fn lemma_stale_nonce_rejected(
    cfg: BridgeConfig,
    statuses: Map<Seq<u8>, MessageStatusV>,
    nonces: Map<(Seq<u8>, u64), nat>,
    msg: CrossChainMessageV,
)
    requires
        chain_ids_ok(cfg, msg),
        !duplicate_in_store(statuses, msg.message_id),
        nonces.contains_key((msg.sender, msg.source_chain_id)),
        msg.nonce_nat() <= nonces[(msg.sender, msg.source_chain_id)],
    ensures
        validate_verdict(cfg, statuses, nonces, msg) is StaleNonce,
{
}

/// Exactly-once at the validator level: a message whose id is already
/// recorded `Confirmed` or `Executed` — in particular any message replayed
/// after its reservation was won — validates as an already-handled
/// duplicate, so a repeated delivery submits nothing.
pub proof fn lemma_duplicate_short_circuits(
    cfg: BridgeConfig,
    statuses: Map<Seq<u8>, MessageStatusV>,
    nonces: Map<(Seq<u8>, u64), nat>,
    msg: CrossChainMessageV,
)
    requires
        chain_ids_ok(cfg, msg),
        duplicate_in_store(statuses, msg.message_id),
    ensures
        validate_verdict(cfg, statuses, nonces, msg) is AlreadyHandled,
{
}

/// Validates a message against the configuration and the dedup store.
///
/// Returns `Ok(Fresh)` exactly on acceptance, `Ok(Duplicate)` exactly on an
/// already-handled id (an idempotent no-op, not an error), and a
/// verification error on every other verdict. Never mutates anything.
pub fn verify_message(cfg: &BridgeConfig, store: &DedupStore, msg: &CrossChainMessage) -> (r:
    BridgeResult<ValidationOutcome>)
    requires
        store.wf(),
        msg.wf(),
    ensures
        (r matches Result::Ok(o) && o == ValidationOutcome::Fresh) <==> validate_verdict(
            *cfg,
            store.status_map(),
            store.nonce_map(),
            msg@,
        ) is Accept,
        (r matches Result::Ok(o) && o == ValidationOutcome::Duplicate) <==> validate_verdict(
            *cfg,
            store.status_map(),
            store.nonce_map(),
            msg@,
        ) is AlreadyHandled,
        r is Err ==> r->Err_0 is MessageVerificationError,
{
    if msg.source_chain_id != cfg.ethereum_chain_id && msg.source_chain_id != cfg.base_chain_id {
        return Result::Err(
            BridgeError::MessageVerificationError("Invalid source chain ID".to_owned()),
        );
    }
    if (msg.destination_chain_id != cfg.ethereum_chain_id && msg.destination_chain_id
        != cfg.base_chain_id) || msg.destination_chain_id == msg.source_chain_id {
        return Result::Err(
            BridgeError::MessageVerificationError("Invalid destination chain ID".to_owned()),
        );
    }
    match store.status_of(&msg.message_id) {
        Option::Some(st) => {
            let handled = match &st.execution_status {
                crate::types::ExecutionStatus::Confirmed => true,
                crate::types::ExecutionStatus::Executed => true,
                _ => false,
            };
            if handled {
                return Result::Ok(ValidationOutcome::Duplicate);
            }
        },
        Option::None => {},
    }
    match store.last_nonce(&msg.sender, msg.source_chain_id) {
        Option::Some(last) => {
            if !last.lt_word(&msg.nonce) {
                return Result::Err(
                    BridgeError::MessageVerificationError("Stale or replayed nonce".to_owned()),
                );
            }
        },
        Option::None => {},
    }
    if msg.amount.is_zero() {
        return Result::Err(
            BridgeError::MessageVerificationError("Transfer amount must be positive".to_owned()),
        );
    }
    if msg.data.len() as u64 > cfg.max_payload_bytes {
        return Result::Err(
            BridgeError::MessageVerificationError("Payload exceeds maximum size".to_owned()),
        );
    }
    Result::Ok(ValidationOutcome::Fresh)
}

} // verus!
