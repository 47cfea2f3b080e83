//! Unit-level checks: word comparisons, confirmation boundaries, validator
//! verdicts, error classification, backoff, and signing.

use rusted_bridge::config::BridgeConfig;
use rusted_bridge::confirm::{
    next_confirmation_wait, verify_confirmations, WaitDecision, CONFIRMATION_POLL_INTERVAL_MS,
    CONFIRMATION_POLL_LIMIT,
};
use rusted_bridge::dispatch::{backoff_delay_ms, classify_error, ErrorClass};
use rusted_bridge::error::BridgeError;
use rusted_bridge::sign::sign_message;
use rusted_bridge::store::DedupStore;
use rusted_bridge::types::{BridgeEvent, ChainType, CrossChainMessage};
use rusted_bridge::validate::{verify_message, ValidationOutcome};
use rusted_bridge::word::{AccountId, Word256};

fn test_config() -> BridgeConfig {
    BridgeConfig {
        ethereum_rpc: String::new(),
        base_rpc: String::new(),
        bridge_contract_ethereum: AccountId { bytes: vec![0u8; 20] },
        bridge_contract_base: AccountId { bytes: vec![0u8; 20] },
        validator_private_key: vec![0x11u8; 32],
        ethereum_chain_id: 1,
        base_chain_id: 8453,
        confirmation_blocks: 12,
        max_payload_bytes: 65536,
    }
}

fn word_from_u64(x: u64) -> Word256 {
    let mut bytes = vec![0u8; 32];
    bytes[24..32].copy_from_slice(&x.to_be_bytes());
    Word256 { bytes }
}

fn test_message(nonce: u64, id_byte: u8) -> CrossChainMessage {
    CrossChainMessage {
        source_chain_id: 1,
        destination_chain_id: 8453,
        sender: AccountId { bytes: vec![0xAAu8; 20] },
        recipient: AccountId { bytes: vec![0xBBu8; 20] },
        amount: word_from_u64(1000),
        nonce: word_from_u64(nonce),
        message_id: Word256 { bytes: vec![id_byte; 32] },
        data: Vec::new(),
        signature: Vec::new(),
    }
}

fn test_event(msg: CrossChainMessage, block: u64) -> BridgeEvent {
    BridgeEvent {
        chain_type: ChainType::Ethereum,
        message: msg,
        block_number: block,
        transaction_hash: Word256 { bytes: vec![0xCCu8; 32] },
    }
}

#[test]
fn word_comparisons_follow_numeric_order() {
    let a = word_from_u64(5);
    let b = word_from_u64(6);
    assert!(a.lt_word(&b));
    assert!(!b.lt_word(&a));
    assert!(!a.lt_word(&a));
    assert!(a.eq_word(&a));
    assert!(!a.eq_word(&b));
    assert!(word_from_u64(0).is_zero());
    assert!(!a.is_zero());

    // A difference in a high-order byte outweighs the low-order bytes.
    let mut big = vec![0u8; 32];
    big[0] = 1;
    let big = Word256 { bytes: big };
    assert!(b.lt_word(&big));
    assert!(!big.lt_word(&b));
}

#[test]
fn confirmation_check_is_exact_at_the_boundary() {
    let cfg = test_config();
    let event = test_event(test_message(1, 0x01), 100);
    // Depth exactly the threshold succeeds.
    assert!(verify_confirmations(&cfg, &event, 112).is_ok());
    // One block short fails.
    let err = verify_confirmations(&cfg, &event, 111).unwrap_err();
    assert!(matches!(err, BridgeError::MessageVerificationError(_)));
    // A height behind the event's block fails.
    assert!(verify_confirmations(&cfg, &event, 99).is_err());
    // Deeper than the threshold succeeds.
    assert!(verify_confirmations(&cfg, &event, 10_000).is_ok());
}

#[test]
fn validator_rejects_unconfigured_or_equal_chain_ids() {
    let cfg = test_config();
    let store = DedupStore::new();

    let mut bad_source = test_message(1, 0x01);
    bad_source.source_chain_id = 7;
    assert!(matches!(
        verify_message(&cfg, &store, &bad_source).unwrap_err(),
        BridgeError::MessageVerificationError(_)
    ));

    let mut bad_dest = test_message(1, 0x02);
    bad_dest.destination_chain_id = 7;
    assert!(verify_message(&cfg, &store, &bad_dest).is_err());

    let mut same = test_message(1, 0x03);
    same.destination_chain_id = 1;
    assert!(verify_message(&cfg, &store, &same).is_err());

    assert_eq!(
        verify_message(&cfg, &store, &test_message(1, 0x04)).unwrap(),
        ValidationOutcome::Fresh
    );
}

#[test]
fn validator_enforces_structural_bounds() {
    let cfg = test_config();
    let store = DedupStore::new();

    let mut zero_amount = test_message(1, 0x01);
    zero_amount.amount = word_from_u64(0);
    assert!(matches!(
        verify_message(&cfg, &store, &zero_amount).unwrap_err(),
        BridgeError::MessageVerificationError(_)
    ));

    let mut oversized = test_message(1, 0x02);
    oversized.data = vec![0u8; 65537];
    assert!(verify_message(&cfg, &store, &oversized).is_err());

    let mut at_bound = test_message(1, 0x03);
    at_bound.data = vec![0u8; 65536];
    assert_eq!(
        verify_message(&cfg, &store, &at_bound).unwrap(),
        ValidationOutcome::Fresh
    );
}

#[test]
fn validator_short_circuits_reserved_ids_as_duplicates() {
    let cfg = test_config();
    let mut store = DedupStore::new();
    let msg = test_message(1, 0x05);
    assert!(store.reserve(&msg.message_id, 40));
    assert_eq!(
        verify_message(&cfg, &store, &msg).unwrap(),
        ValidationOutcome::Duplicate
    );
}

#[test]
fn errors_classify_per_the_propagation_policy() {
    let s = || String::from("x");
    assert_eq!(
        classify_error(&BridgeError::ChainCommunicationError(s())),
        ErrorClass::Retry
    );
    assert_eq!(classify_error(&BridgeError::ProviderError(s())), ErrorClass::Halt);
    assert_eq!(classify_error(&BridgeError::DatabaseError(s())), ErrorClass::Halt);
    assert_eq!(classify_error(&BridgeError::SignatureError(s())), ErrorClass::Halt);
    assert_eq!(
        classify_error(&BridgeError::MessageVerificationError(s())),
        ErrorClass::Terminal
    );
    assert_eq!(classify_error(&BridgeError::ContractError(s())), ErrorClass::Terminal);
    assert_eq!(classify_error(&BridgeError::ConfigError(s())), ErrorClass::Terminal);
}

#[test]
fn backoff_doubles_from_base_up_to_the_cap() {
    assert_eq!(backoff_delay_ms(0), 500);
    assert_eq!(backoff_delay_ms(1), 1000);
    assert_eq!(backoff_delay_ms(2), 2000);
    assert_eq!(backoff_delay_ms(6), 32000);
    assert_eq!(backoff_delay_ms(7), 60000);
    assert_eq!(backoff_delay_ms(40), 60000);
}

#[test]
fn signing_is_deterministic_and_leaves_other_fields_unchanged() {
    let cfg = test_config();
    let signed_a = sign_message(&cfg, test_message(1, 0x01)).unwrap();
    let signed_b = sign_message(&cfg, test_message(1, 0x01)).unwrap();
    assert_eq!(signed_a.signature, signed_b.signature);
    assert_eq!(signed_a.signature.len(), 65);
    assert_eq!(signed_a.source_chain_id, 1);
    assert_eq!(signed_a.destination_chain_id, 8453);
    assert_eq!(signed_a.amount.bytes, word_from_u64(1000).bytes);
    assert_eq!(signed_a.nonce.bytes, word_from_u64(1).bytes);
    assert_eq!(signed_a.message_id.bytes, vec![0x01u8; 32]);

    // A different message yields a different attestation.
    let signed_c = sign_message(&cfg, test_message(2, 0x01)).unwrap();
    assert_ne!(signed_a.signature, signed_c.signature);

    // A different key yields a different attestation.
    let mut other = test_config();
    other.validator_private_key = vec![0x22u8; 32];
    let signed_d = sign_message(&other, test_message(1, 0x01)).unwrap();
    assert_ne!(signed_a.signature, signed_d.signature);
}

#[test]
fn error_descriptions_name_the_kind() {
    let e = BridgeError::MessageVerificationError(String::from("stale nonce"));
    assert_eq!(e.describe(), "Message verification failed: stale nonce");
    let e = BridgeError::ProviderError(String::from("unreachable"));
    assert_eq!(e.describe(), "Provider error: unreachable");
}

#[test]
fn decoding_round_trips_a_message_through_its_log() {
    let cfg = test_config();
    let original = test_message(9, 0x0D);
    let mut data = Vec::new();
    data.extend_from_slice(&original.amount.bytes);
    data.extend_from_slice(&original.nonce.bytes);
    data.extend_from_slice(&original.message_id.bytes);
    let mut sender_topic = vec![0u8; 12];
    sender_topic.extend_from_slice(&original.sender.bytes);
    let mut recipient_topic = vec![0u8; 12];
    recipient_topic.extend_from_slice(&original.recipient.bytes);
    let log = rusted_bridge::types::RawLog {
        topics: vec![
            Word256 { bytes: vec![0xEEu8; 32] },
            Word256 { bytes: sender_topic },
            Word256 { bytes: recipient_topic },
        ],
        data,
        block_number: Some(77),
        transaction_hash: Some(Word256 { bytes: vec![0xCCu8; 32] }),
    };
    let event = rusted_bridge::decode::parse_event(&cfg, &log, ChainType::Ethereum).unwrap();
    assert_eq!(event.message.source_chain_id, original.source_chain_id);
    assert_eq!(event.message.destination_chain_id, original.destination_chain_id);
    assert_eq!(event.message.sender.bytes, original.sender.bytes);
    assert_eq!(event.message.recipient.bytes, original.recipient.bytes);
    assert_eq!(event.message.amount.bytes, original.amount.bytes);
    assert_eq!(event.message.nonce.bytes, original.nonce.bytes);
    assert_eq!(event.message.message_id.bytes, original.message_id.bytes);
    assert_eq!(event.message.data, original.data);
}

#[test]
fn confirmation_repolling_is_bounded() {
    assert_eq!(
        next_confirmation_wait(0),
        WaitDecision::WaitMs(CONFIRMATION_POLL_INTERVAL_MS)
    );
    assert_eq!(
        next_confirmation_wait(CONFIRMATION_POLL_LIMIT - 1),
        WaitDecision::WaitMs(CONFIRMATION_POLL_INTERVAL_MS)
    );
    assert_eq!(next_confirmation_wait(CONFIRMATION_POLL_LIMIT), WaitDecision::GiveUp);
    assert_eq!(next_confirmation_wait(u64::MAX), WaitDecision::GiveUp);
}
