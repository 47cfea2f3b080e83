//! Deployment configuration of the relay, reduced to plain values; reading
//! it from the environment is the host program's concern.

use vstd::prelude::*;

verus! {

use crate::word::AccountId;

/// Default chain id of the Ethereum endpoint.
pub const DEFAULT_ETHEREUM_CHAIN_ID: u64 = 1;

/// Default chain id of the Base endpoint.
pub const DEFAULT_BASE_CHAIN_ID: u64 = 8453;

/// Default confirmation depth required before a message may be relayed.
pub const DEFAULT_CONFIRMATION_BLOCKS: u64 = 12;

/// Default upper bound on the opaque payload of a message, in bytes.
pub const DEFAULT_MAX_PAYLOAD_BYTES: u64 = 65536;

/// The immutable process-lifetime configuration of the relay.
pub struct BridgeConfig {
    pub ethereum_rpc: String,
    pub base_rpc: String,
    pub bridge_contract_ethereum: AccountId,
    pub bridge_contract_base: AccountId,
    /// Raw 32-byte validator signing key.
    pub validator_private_key: Vec<u8>,
    pub ethereum_chain_id: u64,
    pub base_chain_id: u64,
    /// Blocks that must follow an event's block before it is relayed.
    pub confirmation_blocks: u64,
    /// Upper bound on a message's payload length, in bytes.
    pub max_payload_bytes: u64,
}

impl BridgeConfig {
    /// The two ledger endpoints must be distinguishable, addresses are
    /// 20 bytes, and the signing key is a raw 32-byte scalar.
    pub open spec fn wf(self) -> bool {
        &&& self.ethereum_chain_id != self.base_chain_id
        &&& self.bridge_contract_ethereum@.len() == 20
        &&& self.bridge_contract_base@.len() == 20
        &&& self.validator_private_key@.len() == 32
    }

    /// Whether `id` names one of the two configured ledgers.
    pub open spec fn is_configured_chain(self, id: u64) -> bool {
        id == self.ethereum_chain_id || id == self.base_chain_id
    }
}

} // verus!
