//! The authorization verifier.
//!
//! It canonicalizes a payment payload into a signing message, hashes it with
//! BLAKE2b-256, and checks a detached 64-byte sr25519 signature against the
//! signer's account bytes used as the public key. Signature verification is
//! the sole authorization gate, so it fails closed on any malformed input.

use vstd::prelude::*;
use crate::account::{AccountId, Balance};
use crate::codec::{append_bytes, encode_account, encode_u128, encode_u64, u128_le_bytes,
    u64_le_bytes};
use crate::hashing::{blake2_256, blake2_256_of};

verus! {

/// Whether sr25519 verification accepts `signature` over `message` for
/// `public_key`; a function of the three byte strings alone.
pub uninterp spec fn sr25519_ok(signature: Seq<u8>, message: Seq<u8>, public_key: Seq<u8>) -> bool;

/// Relies on `ink::env::sr25519_verify`: accepts or rejects a 64-byte
/// sr25519 signature over a message for a 32-byte public key, with an
/// outcome that depends on the three byte strings alone.
#[verifier::external_body]
fn sr25519_verify_bytes(signature: &Vec<u8>, message: &[u8; 32], public_key: &AccountId) -> (r:
    bool)
    requires
        signature@.len() == 64,
    ensures
        r == sr25519_ok(signature@, message@, public_key@),
{
    let mut sig_array = [0u8; 64];
    sig_array.copy_from_slice(signature.as_slice());
    ink::env::sr25519_verify(&sig_array, &message[..], public_key).is_ok()
}

/// The signing message: the fixed-order concatenation of the canonical
/// encodings of `from`, `to`, `amount`, the raw nonce bytes, and
/// `valid_until`.
pub open spec fn message_bytes(
    from: Seq<u8>,
    to: Seq<u8>,
    amount: Balance,
    nonce: Seq<u8>,
    valid_until: u64,
) -> Seq<u8> {
    from + to + u128_le_bytes(amount) + nonce + u64_le_bytes(valid_until)
}

/// The 256-bit digest of the signing message.
pub open spec fn payload_digest(
    from: Seq<u8>,
    to: Seq<u8>,
    amount: Balance,
    nonce: Seq<u8>,
    valid_until: u64,
) -> Seq<u8> {
    blake2_256_of(message_bytes(from, to, amount, nonce, valid_until))
}

/// Whether a presented signature authorizes the payload: it must be exactly
/// 64 bytes and pass sr25519 verification of the payload digest against the
/// signer's bytes as the public key.
pub open spec fn sig_accepted(
    from: Seq<u8>,
    to: Seq<u8>,
    amount: Balance,
    nonce: Seq<u8>,
    valid_until: u64,
    signature: Seq<u8>,
) -> bool {
    &&& signature.len() == 64
    &&& sr25519_ok(signature, payload_digest(from, to, amount, nonce, valid_until), from)
}

/// Builds the canonical signing message for a payload.
pub fn build_message(
    from: &AccountId,
    to: &AccountId,
    amount: Balance,
    nonce: &Vec<u8>,
    valid_until: u64,
) -> (r: Vec<u8>)
    ensures
        r@ == message_bytes(from@, to@, amount, nonce@, valid_until),
{
    let mut message: Vec<u8> = Vec::new();
    append_bytes(&mut message, &encode_account(from));
    append_bytes(&mut message, &encode_account(to));
    append_bytes(&mut message, &encode_u128(amount));
    append_bytes(&mut message, nonce);
    append_bytes(&mut message, &encode_u64(valid_until));
    message
}

/// Hashes the canonical signing message of a payload.
pub fn message_digest(
    from: &AccountId,
    to: &AccountId,
    amount: Balance,
    nonce: &Vec<u8>,
    valid_until: u64,
) -> (r: [u8; 32])
    ensures
        r@ == payload_digest(from@, to@, amount, nonce@, valid_until),
{
    let message = build_message(from, to, amount, nonce, valid_until);
    blake2_256(&message)
}

/// Checks a detached signature against a payload.
///
/// A signature that is not exactly 64 bytes is rejected without consulting
/// the cryptographic check.
pub fn verify_signature(
    from: &AccountId,
    to: &AccountId,
    amount: Balance,
    nonce: &Vec<u8>,
    valid_until: u64,
    signature: &Vec<u8>,
) -> (r: bool)
    ensures
        r == sig_accepted(from@, to@, amount, nonce@, valid_until, signature@),
{
    if signature.len() != 64 {
        return false;
    }
    let digest = message_digest(from, to, amount, nonce, valid_until);
    sr25519_verify_bytes(signature, &digest, from)
}

} // verus!
