//! 256-bit hashing, done by the host environment's crypto primitives.
//!
//! Each digest is named by an uninterpreted spec function of the input bytes
//! alone: the library never states what the digest is on given values, only
//! that equal inputs give equal digests.

use vstd::prelude::*;

verus! {

/// The BLAKE2b-256 digest of `data`, as a function of the bytes alone.
pub uninterp spec fn blake2_256_of(data: Seq<u8>) -> Seq<u8>;

/// The Keccak-256 digest of `data`, as a function of the bytes alone.
pub uninterp spec fn keccak_256_of(data: Seq<u8>) -> Seq<u8>;

/// Relies on `ink::env::hash_bytes::<Blake2x256>`: a 32-byte BLAKE2b-256
/// digest that depends on the input bytes alone.
#[verifier::external_body]
pub fn blake2_256(data: &Vec<u8>) -> (r: [u8; 32])
    ensures
        r@ == blake2_256_of(data@),
{
    let mut output = [0u8; 32];
    ink::env::hash_bytes::<ink::env::hash::Blake2x256>(data.as_slice(), &mut output);
    output
}

/// Relies on `ink::env::hash_bytes::<Keccak256>`: a 32-byte Keccak-256
/// digest that depends on the input bytes alone.
#[verifier::external_body]
pub fn keccak_256(data: &Vec<u8>) -> (r: [u8; 32])
    ensures
        r@ == keccak_256_of(data@),
{
    let mut output = [0u8; 32];
    ink::env::hash_bytes::<ink::env::hash::Keccak256>(data.as_slice(), &mut output);
    output
}

} // verus!
