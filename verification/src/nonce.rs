//! The nonce registry: replay protection.
//!
//! A nonce key is a 32-byte digest of the signer and their caller-chosen
//! nonce. Once marked used a key stays used forever: the registry offers no
//! way to unset it.

use vstd::prelude::*;
use crate::account::bytes32_eq;

verus! {

/// The set of used nonce keys.
pub struct NonceRegistry {
    used: Vec<[u8; 32]>,
}

impl View for NonceRegistry {
    type V = Set<Seq<u8>>;

    closed spec fn view(&self) -> Set<Seq<u8>> {
        Set::new(|k: Seq<u8>| exists|i: int| 0 <= i < self.used@.len() && self.used@[i]@ == k)
    }
}

impl NonceRegistry {
    /// An empty registry: no key is used.
    pub fn new() -> (r: NonceRegistry)
        ensures
            r@ == Set::<Seq<u8>>::empty(),
    {
        let r = NonceRegistry { used: Vec::new() };
        proof {
            assert(r@ =~= Set::<Seq<u8>>::empty());
        }
        r
    }

    /// Whether `key` has been used.
    pub fn is_used(&self, key: &[u8; 32]) -> (r: bool)
        ensures
            r == self@.contains(key@),
    {
        let mut i: usize = 0;
        while i < self.used.len()
            invariant
                i <= self.used@.len(),
                forall|j: int| 0 <= j < i ==> self.used@[j]@ != key@,
            decreases self.used@.len() - i,
        {
            if bytes32_eq(&self.used[i], key) {
                return true;
            }
            i += 1;
        }
        false
    }

    /// Marks `key` used. Idempotent; a used key never reverts to unused.
    pub fn mark_used(&mut self, key: &[u8; 32])
        ensures
            final(self)@ == old(self)@.insert(key@),
            old(self)@.subset_of(final(self)@),
    {
        if !self.is_used(key) {
            self.used.push(*key);
            proof {
                let pre = old(self).used@;
                let post = self.used@;
                assert forall|k: Seq<u8>| self@.contains(k) implies old(self)@.insert(
                    key@,
                ).contains(k) by {
                    let i = choose|i: int| 0 <= i < post.len() && post[i]@ == k;
                    if i < pre.len() {
                        assert(pre[i]@ == k);
                    } else {
                        assert(post[i] == *key);
                    }
                }
                assert forall|k: Seq<u8>| old(self)@.insert(key@).contains(k) implies self@.contains(
                    k,
                ) by {
                    if k == key@ {
                        assert(post[pre.len() as int]@ == k);
                    } else {
                        let i = choose|i: int| 0 <= i < pre.len() && pre[i]@ == k;
                        assert(post[i]@ == k);
                    }
                }
                assert(self@ =~= old(self)@.insert(key@));
            }
        } else {
            proof {
                assert(self@ =~= old(self)@.insert(key@));
            }
        }
    }
}

} // verus!
