//! A cross-chain bridge relay core: decodes bridge transfer logs, enforces
//! confirmation depth, validates messages against a dedup store, signs them,
//! and tracks exactly-once delivery per message id.

pub mod config;
pub mod confirm;
pub mod decode;
pub mod dispatch;
pub mod error;
pub mod pipeline;
pub mod sign;
pub mod store;
pub mod types;
pub mod validate;
pub mod word;
