//! The per-event decision pipeline: record first sight, hold until the
//! confirmation depth is met, validate against the dedup store, sign, and
//! reserve for exactly-once submission. The host performs the surrounding
//! I/O (height queries and transaction submission) and hands the results
//! back in.

use vstd::prelude::*;

verus! {

use crate::config::BridgeConfig;
use crate::confirm::{confirmations_met, verify_confirmations};
use crate::dispatch::terminal_failure_recorded;
use crate::error::{BridgeError, BridgeResult};
use crate::sign::{message_signature, sign_message, signing_succeeds, with_signature};
use crate::store::{
    confirmed_record, lemma_evolves_trans, lemma_step_implies_evolves, pending_record,
    reserve_allowed, store_evolves, DedupStore,
};
use crate::types::{BridgeEvent, CrossChainMessage, MessageStatusV};
use crate::validate::{validate_verdict, verify_message, ValidationOutcome, ValidationVerdict};
use crate::word::Word256;

/// What the pipeline decided about one decoded event.
#[derive(Debug)]
pub enum AdmitOutcome {
    /// The message was validated, signed and reserved: submit exactly this
    /// signed message to the destination chain, then settle the outcome.
    Submit(CrossChainMessage),
    /// The message id is already reserved, delivered, or terminally failed:
    /// an idempotent no-op, nothing to submit.
    AlreadyHandled,
    /// The confirmation depth is not met yet: retry later; the record stays
    /// `Pending` and resumable.
    NotYetFinal,
}

/// The store's status map after a message id was first recorded: unchanged
/// if the id is already known, extended by a `Pending` record otherwise.
pub open spec fn after_pending(
    m: Map<Seq<u8>, MessageStatusV>,
    id: Seq<u8>,
) -> Map<Seq<u8>, MessageStatusV> {
    if m.contains_key(id) {
        m
    } else {
        m.insert(id, pending_record(id))
    }
}

/// A verdict that is neither acceptance nor the duplicate no-op.
pub open spec fn verdict_rejects(v: ValidationVerdict) -> bool {
    !(v is Accept) && !(v is AlreadyHandled)
}

/// Voids a message whose origin event is no longer retrievable when its
/// confirmation is re-checked: a shallow reorg reverted the event, so the
/// relay must have no destination-side effect. A live (`Pending` or
/// `Confirmed`) record is terminally marked `Failed` with the reason
/// `reorg`; a terminal or unknown record is left untouched.
pub fn void_reorged_event(store: &mut DedupStore, message_id: &Word256) -> (r: bool)
    requires
        old(store).wf(),
        message_id@.len() == 32,
    ensures
        final(store).wf(),
        store_evolves(old(store).status_map(), final(store).status_map()),
        final(store).nonce_map() == old(store).nonce_map(),
        r == (old(store).status_map().contains_key(message_id@) && !old(
            store,
        ).status_map()[message_id@].execution_status.is_terminal()),
        terminal_failure_recorded(
            old(store).status_map(),
            final(store).status_map(),
            message_id@,
            "reorg"@,
        ),
{
    let r = store.record_failed(message_id, "reorg".to_owned());
    proof {
        lemma_step_implies_evolves(old(store).status_map(), store.status_map());
    }
    r
}

/// Decides one decoded event against the current origin-chain height.
///
/// The event is first recorded `Pending`. If its block is not buried deeply
/// enough yet, the outcome is `NotYetFinal` and the record stays resumable.
/// Otherwise the message is validated: a duplicate short-circuits as
/// `AlreadyHandled`; a rejection is recorded as terminally `Failed` and
/// returned as a verification error. An accepted message is signed and the
/// id reserved (`Confirmed`): winning the reservation yields the signed
/// message to submit, losing it is another idempotent no-op. A signing
/// failure leaves the record `Pending` and changes nothing else.
pub fn admit_event(
    cfg: &BridgeConfig,
    store: &mut DedupStore,
    event: &BridgeEvent,
    current_height: u64,
) -> (r: BridgeResult<AdmitOutcome>)
    requires
        cfg.wf(),
        old(store).wf(),
        event.wf(),
    ensures
        final(store).wf(),
        store_evolves(old(store).status_map(), final(store).status_map()),
        final(store).nonce_map() == old(store).nonce_map(),
        ({
            let id = event@.message.message_id;
            let m1 = after_pending(old(store).status_map(), id);
            let verdict = validate_verdict(*cfg, m1, old(store).nonce_map(), event@.message);
            let deep_enough = confirmations_met(
                current_height,
                event.block_number,
                cfg.confirmation_blocks,
            );
            &&& !deep_enough ==> r == Result::<AdmitOutcome, BridgeError>::Ok(
                AdmitOutcome::NotYetFinal,
            ) && final(store).status_map() == m1
            &&& deep_enough && verdict is AlreadyHandled ==> r == Result::<
                AdmitOutcome,
                BridgeError,
            >::Ok(AdmitOutcome::AlreadyHandled) && final(store).status_map() == m1
            &&& deep_enough && verdict_rejects(verdict) ==> r is Err && r->Err_0
                is MessageVerificationError && terminal_failure_recorded(
                m1,
                final(store).status_map(),
                id,
                r->Err_0->MessageVerificationError_0@,
            )
            &&& deep_enough && verdict is Accept ==> {
                &&& r is Ok <==> signing_succeeds(*cfg, event@.message)
                &&& r is Err ==> r->Err_0 is SignatureError && final(store).status_map() == m1
                &&& r is Ok && reserve_allowed(m1, id) ==> (r->Ok_0 matches AdmitOutcome::Submit(s)
                    && s@ == with_signature(
                    event@.message,
                    message_signature(*cfg, event@.message),
                ) && s@.signature.len() == 65 && final(store).status_map() == m1.insert(
                    id,
                    confirmed_record(id, current_height),
                ))
                &&& r is Ok && !reserve_allowed(m1, id) ==> r->Ok_0 is AlreadyHandled
                    && final(store).status_map() == m1
            }
        }),
{
    store.record_pending(&event.message.message_id);
    let ghost m1 = store.status_map();
    proof {
        lemma_step_implies_evolves(old(store).status_map(), m1);
    }
    match verify_confirmations(cfg, event, current_height) {
        Result::Err(_) => {
            return Result::Ok(AdmitOutcome::NotYetFinal);
        },
        Result::Ok(()) => {},
    }
    match verify_message(cfg, store, &event.message) {
        Result::Err(e) => {
            let reason = match &e {
                BridgeError::MessageVerificationError(s) => s.clone(),
                _ => String::new(),
            };
            store.record_failed(&event.message.message_id, reason);
            proof {
                lemma_step_implies_evolves(m1, store.status_map());
                lemma_evolves_trans(old(store).status_map(), m1, store.status_map());
            }
            Result::Err(e)
        },
        Result::Ok(ValidationOutcome::Duplicate) => Result::Ok(AdmitOutcome::AlreadyHandled),
        Result::Ok(ValidationOutcome::Fresh) => {
            match sign_message(cfg, event.message.duplicate()) {
                Result::Err(e) => Result::Err(e),
                Result::Ok(signed) => {
                    let won = store.reserve(&event.message.message_id, current_height);
                    proof {
                        lemma_step_implies_evolves(m1, store.status_map());
                        lemma_evolves_trans(old(store).status_map(), m1, store.status_map());
                    }
                    if won {
                        Result::Ok(AdmitOutcome::Submit(signed))
                    } else {
                        Result::Ok(AdmitOutcome::AlreadyHandled)
                    }
                },
            }
        },
    }
}

} // verus!
