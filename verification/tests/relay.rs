//! End-to-end scenarios for the relay pipeline: decoding, confirmation
//! depth, validation, signing, exactly-once dispatch and settlement.

use rusted_bridge::config::BridgeConfig;
use rusted_bridge::dispatch::{settle_submission, DispatchAction, SubmissionOutcome};
use rusted_bridge::error::BridgeError;
use rusted_bridge::pipeline::{admit_event, AdmitOutcome};
use rusted_bridge::store::DedupStore;
use rusted_bridge::types::{ChainType, ExecutionStatus, RawLog};
use rusted_bridge::word::{AccountId, Word256};

fn test_config() -> BridgeConfig {
    BridgeConfig {
        ethereum_rpc: String::new(),
        base_rpc: String::new(),
        bridge_contract_ethereum: AccountId { bytes: vec![0u8; 20] },
        bridge_contract_base: AccountId { bytes: vec![0u8; 20] },
        validator_private_key: vec![0x11u8; 32],
        ethereum_chain_id: 1,
        base_chain_id: 8453,
        confirmation_blocks: 12,
        max_payload_bytes: 65536,
    }
}

fn word_from_u64(x: u64) -> Word256 {
    let mut bytes = vec![0u8; 32];
    bytes[24..32].copy_from_slice(&x.to_be_bytes());
    Word256 { bytes }
}

fn sender_topic() -> Vec<u8> {
    // 0xAA..11, right-aligned in a 32-byte slot.
    let mut t = vec![0u8; 32];
    for b in t[12..32].iter_mut() {
        *b = 0xAA;
    }
    t[31] = 0x11;
    t
}

fn recipient_topic() -> Vec<u8> {
    // 0xBB..22, right-aligned in a 32-byte slot.
    let mut t = vec![0u8; 32];
    for b in t[12..32].iter_mut() {
        *b = 0xBB;
    }
    t[31] = 0x22;
    t
}

/// The scenario log: topics = [event signature, sender, recipient],
/// data = amount=1000 (32B) ‖ nonce (32B) ‖ message_id ‖ payload=[].
fn scenario_log(nonce: u64, message_id_byte: u8) -> RawLog {
    let mut data = Vec::new();
    data.extend_from_slice(&word_from_u64(1000).bytes);
    data.extend_from_slice(&word_from_u64(nonce).bytes);
    data.extend_from_slice(&[message_id_byte; 32]);
    RawLog {
        topics: vec![
            Word256 { bytes: vec![0xEEu8; 32] },
            Word256 { bytes: sender_topic() },
            Word256 { bytes: recipient_topic() },
        ],
        data,
        block_number: Some(100),
        transaction_hash: Some(Word256 { bytes: vec![0xCCu8; 32] }),
    }
}

#[test]
fn decoded_scenario_log_has_expected_fields() {
    let cfg = test_config();
    let log = scenario_log(1, 0x01);
    let event = rusted_bridge::decode::parse_event(&cfg, &log, ChainType::Ethereum).unwrap();
    assert_eq!(event.message.source_chain_id, 1);
    assert_eq!(event.message.destination_chain_id, 8453);
    let mut expected_sender = vec![0xAAu8; 20];
    expected_sender[19] = 0x11;
    let mut expected_recipient = vec![0xBBu8; 20];
    expected_recipient[19] = 0x22;
    assert_eq!(event.message.sender.bytes, expected_sender);
    assert_eq!(event.message.recipient.bytes, expected_recipient);
    assert_eq!(event.message.amount.bytes, word_from_u64(1000).bytes);
    assert_eq!(event.message.nonce.bytes, word_from_u64(1).bytes);
    assert_eq!(event.message.message_id.bytes, vec![0x01u8; 32]);
    assert!(event.message.data.is_empty());
    assert!(event.message.signature.is_empty());
    assert_eq!(event.block_number, 100);
    assert_eq!(event.transaction_hash.bytes, vec![0xCCu8; 32]);
}

#[test]
fn relay_succeeds_after_twelve_confirmations_and_records_executed() {
    let cfg = test_config();
    let mut store = DedupStore::new();
    let log = scenario_log(1, 0x01);
    let event = rusted_bridge::decode::parse_event(&cfg, &log, ChainType::Ethereum).unwrap();

    // Eleven confirmations are not enough yet; the record stays Pending
    // and resumable.
    let early = admit_event(&cfg, &mut store, &event, 111).unwrap();
    assert!(matches!(early, AdmitOutcome::NotYetFinal));
    let status = store.status_of(&event.message.message_id).unwrap();
    assert!(matches!(status.execution_status, ExecutionStatus::Pending));

    // Twelve confirmations: validated, signed and reserved.
    let outcome = admit_event(&cfg, &mut store, &event, 112).unwrap();
    let signed = match outcome {
        AdmitOutcome::Submit(m) => m,
        _ => panic!("expected a message to submit"),
    };
    assert_eq!(signed.signature.len(), 65);

    let action = settle_submission(&mut store, &signed, SubmissionOutcome::Accepted, 0);
    assert_eq!(action, DispatchAction::Done);

    let status = store.status_of(&event.message.message_id).unwrap();
    assert!(matches!(status.execution_status, ExecutionStatus::Executed));
    assert!(status.processed);
    assert_eq!(status.confirmed_block, Some(112));
}

#[test]
fn second_delivery_of_same_message_id_is_a_noop() {
    let cfg = test_config();
    let mut store = DedupStore::new();
    let log = scenario_log(1, 0x02);
    let event = rusted_bridge::decode::parse_event(&cfg, &log, ChainType::Ethereum).unwrap();

    let first = admit_event(&cfg, &mut store, &event, 200).unwrap();
    let signed = match first {
        AdmitOutcome::Submit(m) => m,
        _ => panic!("expected a message to submit"),
    };

    // Delivered again while still reserved: no second submission.
    let replayed = admit_event(&cfg, &mut store, &event, 200).unwrap();
    assert!(matches!(replayed, AdmitOutcome::AlreadyHandled));

    // Delivered again after execution: still a no-op.
    settle_submission(&mut store, &signed, SubmissionOutcome::Accepted, 0);
    let replayed_after = admit_event(&cfg, &mut store, &event, 200).unwrap();
    assert!(matches!(replayed_after, AdmitOutcome::AlreadyHandled));
    let status = store.status_of(&event.message.message_id).unwrap();
    assert!(matches!(status.execution_status, ExecutionStatus::Executed));
}

#[test]
fn reservation_can_only_be_won_once() {
    let mut store = DedupStore::new();
    let id = Word256 { bytes: vec![0x07u8; 32] };
    assert!(store.reserve(&id, 50));
    assert!(!store.reserve(&id, 51));
    assert!(!store.reserve(&id, 50));
}

#[test]
fn stale_nonce_is_always_rejected() {
    let cfg = test_config();
    let mut store = DedupStore::new();

    // Execute a first transfer with nonce 5.
    let log = scenario_log(5, 0x03);
    let event = rusted_bridge::decode::parse_event(&cfg, &log, ChainType::Ethereum).unwrap();
    let signed = match admit_event(&cfg, &mut store, &event, 300).unwrap() {
        AdmitOutcome::Submit(m) => m,
        _ => panic!("expected a message to submit"),
    };
    settle_submission(&mut store, &signed, SubmissionOutcome::Accepted, 0);

    // Nonce equal to the last recorded one is rejected.
    let log_eq = scenario_log(5, 0x04);
    let event_eq = rusted_bridge::decode::parse_event(&cfg, &log_eq, ChainType::Ethereum).unwrap();
    let err = admit_event(&cfg, &mut store, &event_eq, 300).unwrap_err();
    assert!(matches!(err, BridgeError::MessageVerificationError(_)));
    let status = store.status_of(&event_eq.message.message_id).unwrap();
    assert!(matches!(status.execution_status, ExecutionStatus::Failed(_)));

    // A smaller nonce is rejected too.
    let log_lt = scenario_log(4, 0x05);
    let event_lt = rusted_bridge::decode::parse_event(&cfg, &log_lt, ChainType::Ethereum).unwrap();
    let err = admit_event(&cfg, &mut store, &event_lt, 300).unwrap_err();
    assert!(matches!(err, BridgeError::MessageVerificationError(_)));

    // A strictly greater nonce goes through.
    let log_gt = scenario_log(6, 0x06);
    let event_gt = rusted_bridge::decode::parse_event(&cfg, &log_gt, ChainType::Ethereum).unwrap();
    assert!(matches!(
        admit_event(&cfg, &mut store, &event_gt, 300).unwrap(),
        AdmitOutcome::Submit(_)
    ));
}

#[test]
fn missing_recipient_topic_fails_decoding_without_store_mutation() {
    let cfg = test_config();
    let mut log = scenario_log(1, 0x08);
    log.topics.truncate(2);
    let err = rusted_bridge::decode::parse_event(&cfg, &log, ChainType::Ethereum).unwrap_err();
    assert!(matches!(err, BridgeError::MessageVerificationError(_)));

    // Decoding touches no store; an untouched store still knows nothing.
    let store = DedupStore::new();
    assert!(store.status_of(&Word256 { bytes: vec![0x01u8; 32] }).is_none());
}

#[test]
fn contract_reject_is_terminal() {
    let cfg = test_config();
    let mut store = DedupStore::new();
    let log = scenario_log(1, 0x09);
    let event = rusted_bridge::decode::parse_event(&cfg, &log, ChainType::Base).unwrap();
    assert_eq!(event.message.source_chain_id, 8453);
    assert_eq!(event.message.destination_chain_id, 1);
    let signed = match admit_event(&cfg, &mut store, &event, 400).unwrap() {
        AdmitOutcome::Submit(m) => m,
        _ => panic!("expected a message to submit"),
    };
    let action = settle_submission(
        &mut store,
        &signed,
        SubmissionOutcome::ContractRejected(String::from("nonce already used")),
        0,
    );
    assert_eq!(action, DispatchAction::Abandoned);
    let status = store.status_of(&event.message.message_id).unwrap();
    assert!(matches!(status.execution_status, ExecutionStatus::Failed(_)));

    // Terminal states are idempotent to re-enter: a replay is a no-op.
    let replayed = admit_event(&cfg, &mut store, &event, 400).unwrap();
    assert!(matches!(replayed, AdmitOutcome::AlreadyHandled));
}

#[test]
fn reorged_event_is_voided_and_never_submitted() {
    let cfg = test_config();
    let mut store = DedupStore::new();
    let log = scenario_log(1, 0x0B);
    let event = rusted_bridge::decode::parse_event(&cfg, &log, ChainType::Ethereum).unwrap();

    // Seen but not final yet, then its log disappears in a reorg.
    let early = admit_event(&cfg, &mut store, &event, 105).unwrap();
    assert!(matches!(early, AdmitOutcome::NotYetFinal));
    assert!(rusted_bridge::pipeline::void_reorged_event(
        &mut store,
        &event.message.message_id
    ));
    let status = store.status_of(&event.message.message_id).unwrap();
    assert!(matches!(status.execution_status, ExecutionStatus::Failed(_)));

    // Voiding is idempotent, and a re-delivery never submits.
    assert!(!rusted_bridge::pipeline::void_reorged_event(
        &mut store,
        &event.message.message_id
    ));
    let redelivered = admit_event(&cfg, &mut store, &event, 200).unwrap();
    assert!(matches!(redelivered, AdmitOutcome::AlreadyHandled));
}

#[test]
fn transport_failures_retry_with_backoff_then_abandon() {
    let cfg = test_config();
    let mut store = DedupStore::new();
    let log = scenario_log(1, 0x0A);
    let event = rusted_bridge::decode::parse_event(&cfg, &log, ChainType::Ethereum).unwrap();
    let signed = match admit_event(&cfg, &mut store, &event, 500).unwrap() {
        AdmitOutcome::Submit(m) => m,
        _ => panic!("expected a message to submit"),
    };

    let a0 = settle_submission(
        &mut store,
        &signed,
        SubmissionOutcome::TransportFailed(String::from("timeout")),
        0,
    );
    assert_eq!(a0, DispatchAction::RetryAfterMs(500));
    let a3 = settle_submission(
        &mut store,
        &signed,
        SubmissionOutcome::TransportFailed(String::from("timeout")),
        3,
    );
    assert_eq!(a3, DispatchAction::RetryAfterMs(4000));
    // The store is untouched while retries remain.
    let status = store.status_of(&event.message.message_id).unwrap();
    assert!(matches!(status.execution_status, ExecutionStatus::Confirmed));

    // The attempt budget is spent: abandoned and recorded Failed.
    let a4 = settle_submission(
        &mut store,
        &signed,
        SubmissionOutcome::TransportFailed(String::from("timeout")),
        4,
    );
    assert_eq!(a4, DispatchAction::Abandoned);
    let status = store.status_of(&event.message.message_id).unwrap();
    assert!(matches!(status.execution_status, ExecutionStatus::Failed(_)));
}
