//! Event decoding: turns a raw log record into a `BridgeEvent`, extracting
//! the canonical message from the topic slots and the data segment.

use vstd::prelude::*;

verus! {

use crate::config::BridgeConfig;
use crate::error::{BridgeError, BridgeResult};
use crate::types::{
    BridgeEvent, BridgeEventV, ChainType, CrossChainMessage, CrossChainMessageV, RawLog, RawLogV,
};
use crate::word::{copy_range, AccountId, Word256};

/// Source and destination chain ids of an event observed on `origin`:
/// Ethereum-origin events target Base and vice versa; direction is never
/// inferred from log content.
pub open spec fn direction_of(cfg: BridgeConfig, origin: ChainType) -> (u64, u64) {
    match origin {
        ChainType::Ethereum => (cfg.ethereum_chain_id, cfg.base_chain_id),
        ChainType::Base => (cfg.base_chain_id, cfg.ethereum_chain_id),
    }
}

/// A log can be decoded exactly when both indexed address slots are present,
/// the data segment holds the three fixed 32-byte fields, and the log is no
/// longer pending (it has a block number and a transaction hash).
pub open spec fn log_shape_ok(log: RawLogV) -> bool {
    &&& log.topics.len() >= 3
    &&& log.data.len() >= 96
    &&& log.block_number is Some
    &&& log.transaction_hash is Some
}

/// The message carried by a decodable log: addresses are the low 20 bytes of
/// topic slots 1 and 2, and the data segment is
/// `amount (32) ‖ nonce (32) ‖ message_id (32) ‖ payload`.
pub open spec fn decoded_message(
    log: RawLogV,
    source_chain_id: u64,
    destination_chain_id: u64,
) -> CrossChainMessageV
    recommends
        log_shape_ok(log),
{
    CrossChainMessageV {
        source_chain_id,
        destination_chain_id,
        sender: log.topics[1].subrange(12, 32),
        recipient: log.topics[2].subrange(12, 32),
        amount: log.data.subrange(0, 32),
        nonce: log.data.subrange(32, 64),
        message_id: log.data.subrange(64, 96),
        data: log.data.subrange(96, log.data.len() as int),
        signature: Seq::empty(),
    }
}

/// The event a decodable log denotes, given the chain it was observed on.
pub open spec fn decoded_event(log: RawLogV, origin: ChainType, cfg: BridgeConfig) -> BridgeEventV
    recommends
        log_shape_ok(log),
{
    BridgeEventV {
        chain_type: origin,
        message: decoded_message(log, direction_of(cfg, origin).0, direction_of(cfg, origin).1),
        block_number: log.block_number.unwrap(),
        transaction_hash: log.transaction_hash.unwrap(),
    }
}

/// Decodes a raw log observed on `chain_type` into a `BridgeEvent`.
///
/// Decoding succeeds exactly on logs of the documented shape; it fails with
/// a verification error on every other log and never touches any state.
pub fn parse_event(cfg: &BridgeConfig, log: &RawLog, chain_type: ChainType) -> (r: BridgeResult<
    BridgeEvent,
>)
    requires
        log.wf(),
    ensures
        r is Ok <==> log_shape_ok(log@),
        r is Ok ==> r->Ok_0@ == decoded_event(log@, chain_type, *cfg),
        r is Ok ==> r->Ok_0.wf(),
        r is Err ==> r->Err_0 is MessageVerificationError,
{
    let (source_chain_id, destination_chain_id) = match chain_type {
        ChainType::Ethereum => (cfg.ethereum_chain_id, cfg.base_chain_id),
        ChainType::Base => (cfg.base_chain_id, cfg.ethereum_chain_id),
    };

    if log.topics.len() < 2 {
        return Result::Err(BridgeError::MessageVerificationError("Missing sender".to_owned()));
    }
    if log.topics.len() < 3 {
        return Result::Err(BridgeError::MessageVerificationError("Missing recipient".to_owned()));
    }
    if log.data.len() < 96 {
        return Result::Err(
            BridgeError::MessageVerificationError("Log data segment too short".to_owned()),
        );
    }
    let block_number = match log.block_number {
        Option::Some(b) => b,
        Option::None => {
            return Result::Err(
                BridgeError::MessageVerificationError("Missing block number".to_owned()),
            );
        },
    };
    let transaction_hash = match &log.transaction_hash {
        Option::Some(h) => h.duplicate(),
        Option::None => {
            return Result::Err(
                BridgeError::MessageVerificationError("Missing transaction hash".to_owned()),
            );
        },
    };

    let payload_len = log.data.len() - 96;
    let event = BridgeEvent {
        chain_type,
        message: CrossChainMessage {
            source_chain_id,
            destination_chain_id,
            sender: AccountId { bytes: copy_range(&log.topics[1].bytes, 12, 20) },
            recipient: AccountId { bytes: copy_range(&log.topics[2].bytes, 12, 20) },
            amount: Word256 { bytes: copy_range(&log.data, 0, 32) },
            nonce: Word256 { bytes: copy_range(&log.data, 32, 32) },
            message_id: Word256 { bytes: copy_range(&log.data, 64, 32) },
            data: copy_range(&log.data, 96, payload_len),
            signature: Vec::new(),
        },
        block_number,
        transaction_hash,
    };
    proof {
        assert(log@.topics[1] == log.topics@[1]@);
        assert(log@.topics[2] == log.topics@[2]@);
        assert(event@.message =~~= decoded_event(log@, chain_type, *cfg).message);
    }
    Result::Ok(event)
}

/// The well-formed log that carries `msg`: the sender and recipient padded
/// into topic slots 1 and 2, and the data segment rebuilt from the fixed
/// fields and the payload.
pub open spec fn log_of_message(
    msg: CrossChainMessageV,
    event_sig: Seq<u8>,
    block_number: u64,
    transaction_hash: Seq<u8>,
) -> RawLogV {
    RawLogV {
        topics: seq![event_sig, pad_to_topic(msg.sender), pad_to_topic(msg.recipient)],
        data: msg.amount + msg.nonce + msg.message_id + msg.data,
        block_number: Option::Some(block_number),
        transaction_hash: Option::Some(transaction_hash),
    }
}

/// A 20-byte address right-aligned in a 32-byte topic slot.
pub open spec fn pad_to_topic(addr: Seq<u8>) -> Seq<u8> {
    Seq::new(12, |i: int| 0u8) + addr
}

/// Decoding round-trips: any well-formed, unsigned message whose chain ids
/// match the direction of its origin chain is recovered exactly from the
/// log that carries it.
pub proof fn lemma_decode_round_trip(
    msg: CrossChainMessageV,
    cfg: BridgeConfig,
    origin: ChainType,
    event_sig: Seq<u8>,
    block_number: u64,
    transaction_hash: Seq<u8>,
)
    requires
        msg.wf(),
        msg.signature == Seq::<u8>::empty(),
        msg.source_chain_id == direction_of(cfg, origin).0,
        msg.destination_chain_id == direction_of(cfg, origin).1,
    ensures
        log_shape_ok(log_of_message(msg, event_sig, block_number, transaction_hash)),
        decoded_event(
            log_of_message(msg, event_sig, block_number, transaction_hash),
            origin,
            cfg,
        ) == (BridgeEventV { chain_type: origin, message: msg, block_number, transaction_hash }),
{
    let log = log_of_message(msg, event_sig, block_number, transaction_hash);
    assert(pad_to_topic(msg.sender).subrange(12, 32) =~= msg.sender);
    assert(pad_to_topic(msg.recipient).subrange(12, 32) =~= msg.recipient);
    assert(log.data.subrange(0, 32) =~= msg.amount);
    assert(log.data.subrange(32, 64) =~= msg.nonce);
    assert(log.data.subrange(64, 96) =~= msg.message_id);
    assert(log.data.subrange(96, log.data.len() as int) =~= msg.data);
    assert(decoded_event(log, origin, cfg).message =~~= msg);
}

} // verus!
