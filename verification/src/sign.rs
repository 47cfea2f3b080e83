//! Validator attestation: a deterministic, domain-separated digest of the
//! canonical message, signed with the validator's secp256k1 key. The digest
//! preimage is built and verified here; the digest and the signature come
//! from the signing backend through trusted wrappers.

use vstd::prelude::*;

verus! {

use crate::config::BridgeConfig;
use crate::error::{BridgeError, BridgeResult};
use crate::types::{CrossChainMessage, CrossChainMessageV};
use crate::word::append_bytes;

/// The fixed protocol tag that domain-separates bridge attestations from
/// every other signature the validator key might produce: the ASCII bytes
/// of `RUSTED_BRIDGE_V1`.
pub open spec fn domain_tag() -> Seq<u8> {
    seq![
        0x52u8,
        0x55u8,
        0x53u8,
        0x54u8,
        0x45u8,
        0x44u8,
        0x5fu8,
        0x42u8,
        0x52u8,
        0x49u8,
        0x44u8,
        0x47u8,
        0x45u8,
        0x5fu8,
        0x56u8,
        0x31u8,
    ]
}

/// The domain tag as bytes.
pub fn domain_tag_bytes() -> (r: Vec<u8>)
    ensures
        r@ == domain_tag(),
{
    let mut v: Vec<u8> = Vec::new();
    v.push(0x52u8);
    v.push(0x55u8);
    v.push(0x53u8);
    v.push(0x54u8);
    v.push(0x45u8);
    v.push(0x44u8);
    v.push(0x5fu8);
    v.push(0x42u8);
    v.push(0x52u8);
    v.push(0x49u8);
    v.push(0x44u8);
    v.push(0x47u8);
    v.push(0x45u8);
    v.push(0x5fu8);
    v.push(0x56u8);
    v.push(0x31u8);
    proof {
        assert(v@ =~= domain_tag());
    }
    v
}

/// A `u64` as 8 big-endian bytes.
pub open spec fn u64_be(x: u64) -> Seq<u8> {
    seq![
        (x >> 56) as u8,
        (x >> 48) as u8,
        (x >> 40) as u8,
        (x >> 32) as u8,
        (x >> 24) as u8,
        (x >> 16) as u8,
        (x >> 8) as u8,
        x as u8,
    ]
}

/// Writes `x` as 8 big-endian bytes.
pub fn u64_be_bytes(x: u64) -> (r: Vec<u8>)
    ensures
        r@ == u64_be(x),
{
    let mut v: Vec<u8> = Vec::new();
    v.push(#[verifier::truncate] ((x >> 56u64) as u8));
    v.push(#[verifier::truncate] ((x >> 48u64) as u8));
    v.push(#[verifier::truncate] ((x >> 40u64) as u8));
    v.push(#[verifier::truncate] ((x >> 32u64) as u8));
    v.push(#[verifier::truncate] ((x >> 24u64) as u8));
    v.push(#[verifier::truncate] ((x >> 16u64) as u8));
    v.push(#[verifier::truncate] ((x >> 8u64) as u8));
    v.push(#[verifier::truncate] (x as u8));
    proof {
        assert(v@ =~= u64_be(x));
    }
    v
}

/// The canonical signing preimage of a message: the domain tag, both chain
/// ids, the addresses, the three fixed 32-byte fields, and the
/// length-prefixed payload — every field except the signature itself.
pub open spec fn signing_payload(msg: CrossChainMessageV) -> Seq<u8> {
    domain_tag() + u64_be(msg.source_chain_id) + u64_be(msg.destination_chain_id) + msg.sender
        + msg.recipient + msg.amount + msg.nonce + msg.message_id + u64_be(msg.data.len() as u64)
        + msg.data
}

/// Builds the canonical signing preimage of `msg`.
pub fn signing_payload_bytes(msg: &CrossChainMessage) -> (r: Vec<u8>)
    requires
        msg.wf(),
    ensures
        r@ == signing_payload(msg@),
{
    let mut out = domain_tag_bytes();
    let source = u64_be_bytes(msg.source_chain_id);
    append_bytes(&mut out, &source);
    let destination = u64_be_bytes(msg.destination_chain_id);
    append_bytes(&mut out, &destination);
    append_bytes(&mut out, &msg.sender.bytes);
    append_bytes(&mut out, &msg.recipient.bytes);
    append_bytes(&mut out, &msg.amount.bytes);
    append_bytes(&mut out, &msg.nonce.bytes);
    append_bytes(&mut out, &msg.message_id.bytes);
    let payload_len = u64_be_bytes(msg.data.len() as u64);
    append_bytes(&mut out, &payload_len);
    append_bytes(&mut out, &msg.data);
    proof {
        assert(out@ =~= signing_payload(msg@));
    }
    out
}

/// The Keccak-256 digest of a byte string.
pub uninterp spec fn keccak_of(data: Seq<u8>) -> Seq<u8>;

/// Relies on ethers::core::utils::keccak256: the Keccak-256 digest, a pure
/// function of the input bytes alone, 32 bytes long.
#[verifier::external_body]
fn keccak256_digest(data: &Vec<u8>) -> (r: Vec<u8>)
    ensures
        r@ == keccak_of(data@),
        r@.len() == 32,
{
    ethers::core::utils::keccak256(data.as_slice()).to_vec()
}

/// The encoded secp256k1 attestation the validator key produces over a
/// 32-byte digest.
pub uninterp spec fn ecdsa_signature_of(key: Seq<u8>, digest: Seq<u8>) -> Seq<u8>;

/// Whether the signing backend accepts this key and digest: key parsing and
/// RFC 6979 signing involve no randomness, so acceptance too is a function
/// of the key and digest alone.
pub uninterp spec fn ecdsa_sign_ok(key: Seq<u8>, digest: Seq<u8>) -> bool;

/// Relies on ethers::signers::Wallet::from_bytes and Wallet::sign_hash:
/// deterministic (RFC 6979) ECDSA over secp256k1, a function of the raw
/// 32-byte key and the 32-byte digest alone — both the 65-byte `r ‖ s ‖ v`
/// signature and whether signing succeeds at all (`from_bytes` rejects byte
/// strings that are not a valid secret scalar; no step draws randomness).
/// `from_bytes` panics on a slice that is not exactly 32 bytes, which the
/// precondition rules out.
#[verifier::external_body]
fn ecdsa_sign(key: &Vec<u8>, digest: &Vec<u8>) -> (r: Result<Vec<u8>, BridgeError>)
    requires
        key@.len() == 32,
        digest@.len() == 32,
    ensures
        r is Ok <==> ecdsa_sign_ok(key@, digest@),
        r is Ok ==> r->Ok_0@ == ecdsa_signature_of(key@, digest@) && r->Ok_0@.len() == 65,
        r is Err ==> r->Err_0 is SignatureError,
{
    let wallet = ethers::signers::LocalWallet::from_bytes(key.as_slice())
        .map_err(|e| BridgeError::SignatureError(e.to_string()))?;
    let signature = wallet
        .sign_hash(ethers::types::H256::from_slice(digest.as_slice()))
        .map_err(|e| BridgeError::SignatureError(e.to_string()))?;
    Ok(signature.to_vec())
}

/// The attestation `cfg`'s validator key produces over `msg`: the ECDSA
/// signature of the Keccak-256 digest of the canonical signing preimage.
pub open spec fn message_signature(cfg: BridgeConfig, msg: CrossChainMessageV) -> Seq<u8> {
    ecdsa_signature_of(cfg.validator_private_key@, keccak_of(signing_payload(msg)))
}

/// Whether the signing backend accepts `cfg`'s validator key for `msg`'s
/// digest; a deterministic property of the key and the message alone.
pub open spec fn signing_succeeds(cfg: BridgeConfig, msg: CrossChainMessageV) -> bool {
    ecdsa_sign_ok(cfg.validator_private_key@, keccak_of(signing_payload(msg)))
}

/// `msg` with `signature` in place of its signature field, every other
/// field unchanged.
pub open spec fn with_signature(msg: CrossChainMessageV, signature: Seq<u8>) -> CrossChainMessageV {
    CrossChainMessageV { signature, ..msg }
}

/// Replaces the signature field of a message, leaving every other field
/// unchanged.
pub fn attach_signature(msg: CrossChainMessage, signature: Vec<u8>) -> (r: CrossChainMessage)
    ensures
        r@ == with_signature(msg@, signature@),
{
    CrossChainMessage { signature, ..msg }
}

/// Signs a validated message with the validator key. Signing succeeds
/// exactly when the backend accepts the key for this message's digest —
/// a deterministic condition, so a given key either signs every message or
/// none. On success the result is `msg` with exactly the deterministic
/// 65-byte attestation attached and no other field changed; on failure the
/// error is a signature error and nothing else happened.
pub fn sign_message(cfg: &BridgeConfig, msg: CrossChainMessage) -> (r: BridgeResult<
    CrossChainMessage,
>)
    requires
        cfg.wf(),
        msg.wf(),
    ensures
        r is Ok <==> signing_succeeds(*cfg, msg@),
        r is Ok ==> r->Ok_0@ == with_signature(msg@, message_signature(*cfg, msg@)),
        r is Ok ==> r->Ok_0@.signature.len() == 65,
        r is Ok ==> r->Ok_0.wf(),
        r is Err ==> r->Err_0 is SignatureError,
{
    let payload = signing_payload_bytes(&msg);
    let digest = keccak256_digest(&payload);
    match ecdsa_sign(&cfg.validator_private_key, &digest) {
        Result::Ok(signature) => Result::Ok(attach_signature(msg, signature)),
        Result::Err(e) => Result::Err(e),
    }
}

} // verus!
