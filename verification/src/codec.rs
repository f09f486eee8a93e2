//! Canonical binary encodings for the signed message.
//!
//! Fixed-width values are encoded as little-endian bytes and account
//! identifiers as their raw bytes; this byte-for-byte layout is the wire
//! contract an off-line signer must reproduce.

use vstd::prelude::*;
use vstd::arithmetic::power::pow;
use crate::account::AccountId;

verus! {

/// Byte `i` of the little-endian encoding of `v`.
pub open spec fn le_byte(v: nat, i: nat) -> u8 {
    ((v / pow(256, i) as nat) % 256) as u8
}

/// The 16 little-endian bytes of a 128-bit value.
pub open spec fn u128_le_bytes(v: u128) -> Seq<u8> {
    Seq::new(16, |i: int| le_byte(v as nat, i as nat))
}

/// The 8 little-endian bytes of a 64-bit value.
pub open spec fn u64_le_bytes(v: u64) -> Seq<u8> {
    Seq::new(8, |i: int| le_byte(v as nat, i as nat))
}

/// Relies on `parity_scale_codec::Encode` for `u128`: SCALE encodes a
/// 128-bit integer as its 16 little-endian bytes.
#[verifier::external_body]
pub fn encode_u128(v: u128) -> (r: Vec<u8>)
    ensures
        r@ == u128_le_bytes(v),
{
    parity_scale_codec::Encode::encode(&v)
}

/// Relies on `parity_scale_codec::Encode` for `u64`: SCALE encodes a
/// 64-bit integer as its 8 little-endian bytes.
#[verifier::external_body]
pub fn encode_u64(v: u64) -> (r: Vec<u8>)
    ensures
        r@ == u64_le_bytes(v),
{
    parity_scale_codec::Encode::encode(&v)
}

/// Relies on `parity_scale_codec::Encode` for `[u8; 32]`: SCALE encodes a
/// fixed-size byte array as exactly its bytes, with no length prefix.
#[verifier::external_body]
pub fn encode_account(a: &AccountId) -> (r: Vec<u8>)
    ensures
        r@ == a@,
{
    parity_scale_codec::Encode::encode(a)
}

/// Appends all of `src` to `dst`.
pub fn append_bytes(dst: &mut Vec<u8>, src: &Vec<u8>)
    ensures
        final(dst)@ == old(dst)@ + src@,
{
    let mut i: usize = 0;
    while i < src.len()
        invariant
            i <= src.len(),
            dst@ == old(dst)@ + src@.subrange(0, i as int),
        decreases src.len() - i,
    {
        dst.push(src[i]);
        proof {
            assert(dst@ =~= old(dst)@ + src@.subrange(0, i + 1));
        }
        i += 1;
    }
    proof {
        assert(src@.subrange(0, src@.len() as int) =~= src@);
    }
}

} // verus!
