//! Accounts and balances.
//!
//! An account is an opaque 32-byte identifier that doubles as an sr25519
//! public key; a balance is an unsigned 128-bit integer.

use vstd::prelude::*;

verus! {

/// A 32-byte account identifier, also used as the signer's public key.
pub type AccountId = [u8; 32];

/// An unsigned 128-bit token amount.
pub type Balance = u128;

/// The raw bytes of an account identifier, as a vector.
pub fn account_bytes(a: &AccountId) -> (r: Vec<u8>)
    ensures
        r@ == a@,
{
    let mut bytes: Vec<u8> = Vec::new();
    let mut i: usize = 0;
    while i < 32
        invariant
            i <= 32,
            bytes@ == a@.subrange(0, i as int),
        decreases 32 - i,
    {
        bytes.push(a[i]);
        proof {
            assert(bytes@ =~= a@.subrange(0, i + 1));
        }
        i += 1;
    }
    proof {
        assert(a@.subrange(0, 32) =~= a@);
    }
    bytes
}

/// Compares two 32-byte values byte for byte.
pub fn bytes32_eq(a: &[u8; 32], b: &[u8; 32]) -> (r: bool)
    ensures
        r == (a@ == b@),
{
    let mut i: usize = 0;
    while i < 32
        invariant
            i <= 32,
            forall|j: int| 0 <= j < i ==> a@[j] == b@[j],
        decreases 32 - i,
    {
        if a[i] != b[i] {
            return false;
        }
        i += 1;
    }
    proof {
        assert(a@ =~= b@);
    }
    true
}

} // verus!
