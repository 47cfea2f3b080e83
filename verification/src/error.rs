//! Error taxonomy of the relay: per-event verification failures, transient
//! transport failures, and the halting conditions (provider, key, store).

use vstd::prelude::*;

verus! {

use vstd::string::StringExecFns;

/// The error taxonomy of the bridge relay.
#[derive(Debug)]
pub enum BridgeError {
    /// A chain connector could not be reached at startup.
    ProviderError(String),
    /// A message failed a structural, chain-id, replay or decoding check.
    MessageVerificationError(String),
    /// Configuration was missing or malformed.
    ConfigError(String),
    /// A transient query or submission failure against a chain.
    ChainCommunicationError(String),
    /// Key material was unavailable or signing failed.
    SignatureError(String),
    /// The destination bridge contract rejected the transaction.
    ContractError(String),
    /// The dedup store was unavailable.
    DatabaseError(String),
}

/// The rendering of an error: a label naming its kind, then the detail.
pub open spec fn describe_spec(e: BridgeError) -> Seq<char> {
    match e {
        BridgeError::ProviderError(s) => "Provider error: "@ + s@,
        BridgeError::MessageVerificationError(s) => "Message verification failed: "@ + s@,
        BridgeError::ConfigError(s) => "Configuration error: "@ + s@,
        BridgeError::ChainCommunicationError(s) => "Chain communication error: "@ + s@,
        BridgeError::SignatureError(s) => "Invalid signature: "@ + s@,
        BridgeError::ContractError(s) => "Contract interaction error: "@ + s@,
        BridgeError::DatabaseError(s) => "Database error: "@ + s@,
    }
}

impl BridgeError {
    /// A short human-readable rendering of the error.
    pub fn describe(&self) -> (r: String)
        ensures
            r@ == describe_spec(*self),
            r@.len() > 0,
    {
        let (label, detail) = match self {
            BridgeError::ProviderError(s) => ("Provider error: ", s),
            BridgeError::MessageVerificationError(s) => ("Message verification failed: ", s),
            BridgeError::ConfigError(s) => ("Configuration error: ", s),
            BridgeError::ChainCommunicationError(s) => ("Chain communication error: ", s),
            BridgeError::SignatureError(s) => ("Invalid signature: ", s),
            BridgeError::ContractError(s) => ("Contract interaction error: ", s),
            BridgeError::DatabaseError(s) => ("Database error: ", s),
        };
        let mut out = label.to_owned();
        out.append(detail.as_str());
        proof {
            reveal_strlit("Provider error: ");
            reveal_strlit("Message verification failed: ");
            reveal_strlit("Configuration error: ");
            reveal_strlit("Chain communication error: ");
            reveal_strlit("Invalid signature: ");
            reveal_strlit("Contract interaction error: ");
            reveal_strlit("Database error: ");
        }
        out
    }
}

pub type BridgeResult<T> = Result<T, BridgeError>;

} // verus!
