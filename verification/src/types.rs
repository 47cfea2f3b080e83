//! The canonical data model of the relay: chain-agnostic transfer messages,
//! their provenance, raw log records, and per-message lifecycle state.

use vstd::prelude::*;

verus! {

use crate::word::{AccountId, Word256};

/// Which of the two configured ledgers a value belongs to.
#[derive(Clone, Copy, PartialEq, Eq, Structural, Debug)]
pub enum ChainType {
    Ethereum,
    Base,
}

/// The canonical, chain-agnostic transfer intent.
#[derive(Debug)]
pub struct CrossChainMessage {
    pub source_chain_id: u64,
    pub destination_chain_id: u64,
    /// 20-byte account that initiated the transfer on the source chain.
    pub sender: AccountId,
    /// 20-byte account credited on the destination chain.
    pub recipient: AccountId,
    /// 256-bit transfer amount, big-endian.
    pub amount: Word256,
    /// 256-bit per-sender strictly increasing counter, big-endian.
    pub nonce: Word256,
    /// 32-byte content-derived unique identifier; the dedup key.
    pub message_id: Word256,
    /// Opaque payload bytes.
    pub data: Vec<u8>,
    /// Validator attestation; empty until the message is signed.
    pub signature: Vec<u8>,
}

/// Mathematical model of a `CrossChainMessage`.
pub struct CrossChainMessageV {
    pub source_chain_id: u64,
    pub destination_chain_id: u64,
    pub sender: Seq<u8>,
    pub recipient: Seq<u8>,
    pub amount: Seq<u8>,
    pub nonce: Seq<u8>,
    pub message_id: Seq<u8>,
    pub data: Seq<u8>,
    pub signature: Seq<u8>,
}

impl View for CrossChainMessage {
    type V = CrossChainMessageV;

    open spec fn view(&self) -> CrossChainMessageV {
        CrossChainMessageV {
            source_chain_id: self.source_chain_id,
            destination_chain_id: self.destination_chain_id,
            sender: self.sender@,
            recipient: self.recipient@,
            amount: self.amount@,
            nonce: self.nonce@,
            message_id: self.message_id@,
            data: self.data@,
            signature: self.signature@,
        }
    }
}

impl CrossChainMessageV {
    pub open spec fn wf(self) -> bool {
        &&& self.sender.len() == 20
        &&& self.recipient.len() == 20
        &&& self.amount.len() == 32
        &&& self.nonce.len() == 32
        &&& self.message_id.len() == 32
    }

    pub open spec fn amount_nat(self) -> nat {
        crate::word::be_nat(self.amount)
    }

    pub open spec fn nonce_nat(self) -> nat {
        crate::word::be_nat(self.nonce)
    }
}

impl CrossChainMessage {
    pub open spec fn wf(self) -> bool {
        self@.wf()
    }

    /// Field-for-field copy of this message.
    pub fn duplicate(&self) -> (r: CrossChainMessage)
        ensures
            r@ == self@,
    {
        CrossChainMessage {
            source_chain_id: self.source_chain_id,
            destination_chain_id: self.destination_chain_id,
            sender: self.sender.duplicate(),
            recipient: self.recipient.duplicate(),
            amount: self.amount.duplicate(),
            nonce: self.nonce.duplicate(),
            message_id: self.message_id.duplicate(),
            data: crate::word::clone_bytes(&self.data),
            signature: crate::word::clone_bytes(&self.signature),
        }
    }
}

/// Provenance wrapper around a message, fixed once decoded from a log.
#[derive(Debug)]
pub struct BridgeEvent {
    /// The chain the log was observed on.
    pub chain_type: ChainType,
    pub message: CrossChainMessage,
    /// Block that contained the event on the origin chain.
    pub block_number: u64,
    /// 32-byte hash of the transaction that emitted the event.
    pub transaction_hash: Word256,
}

/// Mathematical model of a `BridgeEvent`.
pub struct BridgeEventV {
    pub chain_type: ChainType,
    pub message: CrossChainMessageV,
    pub block_number: u64,
    pub transaction_hash: Seq<u8>,
}

impl View for BridgeEvent {
    type V = BridgeEventV;

    open spec fn view(&self) -> BridgeEventV {
        BridgeEventV {
            chain_type: self.chain_type,
            message: self.message@,
            block_number: self.block_number,
            transaction_hash: self.transaction_hash@,
        }
    }
}

impl BridgeEvent {
    pub open spec fn wf(self) -> bool {
        self@.message.wf() && self.transaction_hash@.len() == 32
    }
}

/// A raw log record as delivered by a chain's subscription stream, reduced
/// to plain values: indexed topics, the data segment, and the block fields
/// that are absent while the log is still pending.
#[derive(Debug)]
pub struct RawLog {
    /// 32-byte topic slots; slot 0 is the event signature.
    pub topics: Vec<Word256>,
    /// The non-indexed data segment.
    pub data: Vec<u8>,
    pub block_number: Option<u64>,
    pub transaction_hash: Option<Word256>,
}

/// Mathematical model of a `RawLog`.
pub struct RawLogV {
    pub topics: Seq<Seq<u8>>,
    pub data: Seq<u8>,
    pub block_number: Option<u64>,
    pub transaction_hash: Option<Seq<u8>>,
}

impl View for RawLog {
    type V = RawLogV;

    open spec fn view(&self) -> RawLogV {
        RawLogV {
            topics: self.topics@.map_values(|t: Word256| t@),
            data: self.data@,
            block_number: self.block_number,
            transaction_hash: match self.transaction_hash {
                Option::Some(h) => Option::Some(h@),
                Option::None => Option::None,
            },
        }
    }
}

impl RawLog {
    pub open spec fn wf(self) -> bool {
        &&& forall|i: int| 0 <= i < self@.topics.len() ==> self@.topics[i].len() == 32
        &&& match self@.transaction_hash {
            Option::Some(h) => h.len() == 32,
            Option::None => true,
        }
    }
}

/// Persisted lifecycle stage of a message.
#[derive(Debug)]
pub enum ExecutionStatus {
    /// Decoded but not yet reserved for submission.
    Pending,
    /// Reserved for submission after the confirmation depth was met.
    Confirmed,
    /// Terminally rejected, with the reason.
    Failed(String),
    /// Accepted on the destination chain; terminal.
    Executed,
}

/// Mathematical model of an `ExecutionStatus`.
pub enum ExecutionStatusV {
    Pending,
    Confirmed,
    Failed(Seq<char>),
    Executed,
}

impl View for ExecutionStatus {
    type V = ExecutionStatusV;

    open spec fn view(&self) -> ExecutionStatusV {
        match self {
            ExecutionStatus::Pending => ExecutionStatusV::Pending,
            ExecutionStatus::Confirmed => ExecutionStatusV::Confirmed,
            ExecutionStatus::Failed(s) => ExecutionStatusV::Failed(s@),
            ExecutionStatus::Executed => ExecutionStatusV::Executed,
        }
    }
}

impl ExecutionStatusV {
    /// `Executed` and `Failed` are terminal: once reached, the same message
    /// id is never resubmitted.
    pub open spec fn is_terminal(self) -> bool {
        self is Executed || self is Failed
    }
}

/// Persisted lifecycle record of one message id.
#[derive(Debug)]
pub struct MessageStatus {
    pub message_id: Word256,
    /// True exactly once the message was accepted on the destination chain.
    pub processed: bool,
    /// Height recorded when the message was reserved for submission.
    pub confirmed_block: Option<u64>,
    pub execution_status: ExecutionStatus,
}

/// Mathematical model of a `MessageStatus`.
pub struct MessageStatusV {
    pub message_id: Seq<u8>,
    pub processed: bool,
    pub confirmed_block: Option<u64>,
    pub execution_status: ExecutionStatusV,
}

impl View for MessageStatus {
    type V = MessageStatusV;

    open spec fn view(&self) -> MessageStatusV {
        MessageStatusV {
            message_id: self.message_id@,
            processed: self.processed,
            confirmed_block: self.confirmed_block,
            execution_status: self.execution_status@,
        }
    }
}

impl MessageStatus {
    pub open spec fn wf(self) -> bool {
        self.message_id@.len() == 32
    }
}

} // verus!
