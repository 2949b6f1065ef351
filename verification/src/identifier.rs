//! Identifiers for catalog entries.
//!
//! An [`Id`] is the key under which a catalog stores an item. It is computed
//! from the item's human-readable name by a polynomial rolling hash, so the
//! same name always yields the same identifier.

use std::marker::PhantomData;
use vstd::arithmetic::div_mod::{lemma_add_mod_noop, lemma_mul_mod_noop_general, lemma_small_mod};
use vstd::arithmetic::power::{lemma_pow0, lemma_pow1, lemma_pow_adds, pow};
use vstd::prelude::*;

verus! {

/// The base of the polynomial hash: a prime close to the size of the input
/// alphabet.
pub const HASH_P: u64 = 53;

/// The modulus of the polynomial hash: a large prime.
pub const HASH_M: u64 = 1_000_000_009;

/// The weighted sum `Σ (bytes[i] + 1) · 53^i` over all positions of `bytes`.
pub open spec fn weighted_sum(bytes: Seq<u8>) -> int
    decreases bytes.len(),
{
    if bytes.len() == 0 {
        0
    } else {
        weighted_sum(bytes.drop_last()) + (bytes.last() + 1) * pow(53, (bytes.len() - 1) as nat)
    }
}

/// The hash of a byte string: its weighted sum reduced modulo `HASH_M`.
pub open spec fn hash_of_bytes(bytes: Seq<u8>) -> int {
    weighted_sum(bytes) % 1_000_000_009
}

/// The hash of a name: the hash of its UTF-8 encoding.
pub open spec fn hash_of_name(name: Seq<char>) -> int {
    hash_of_bytes(vstd::utf8::encode_utf8(name))
}

/// The identifier of an object of kind `T`.
///
/// Identifiers are compared, ordered and hashed by their numeric value alone;
/// the parameter `T` only keeps identifiers of different catalogs apart.
#[derive(Debug, Ord)]
pub struct Id<T> {
    value: u64,
    _phantom: PhantomData<T>,
}

impl<T> View for Id<T> {
    type V = u64;

    closed spec fn view(&self) -> u64 {
        self.value
    }
}

impl<T> Id<T> {
    /// Creates the identifier of the object called `name`.
    pub fn from_name(name: &str) -> (id: Self)
        ensures
            id@ == hash_of_name(name@),
            id@ < HASH_M,
    {
        let bytes = name.as_bytes();
        let mut value: u64 = 0;
        let mut p_pow: u64 = 1;
        let mut index: usize = 0;
        proof {
            lemma_pow0(53);
            lemma_small_mod(1, 1_000_000_009);
        }
        while index < bytes.len()
            invariant
                0 <= index <= bytes.len(),
                value < HASH_M,
                p_pow < HASH_M,
                value == weighted_sum(bytes@.take(index as int)) % 1_000_000_009,
                p_pow == pow(53, index as nat) % 1_000_000_009,
            decreases bytes.len() - index,
        {
            let byte = bytes[index];
            proof {
                lemma_hash_step(bytes@, index as int);
                assert((byte + 1) * p_pow <= 256 * 1_000_000_008) by (nonlinear_arith)
                    requires
                        0 <= byte + 1 <= 256,
                        0 <= p_pow <= 1_000_000_008,
                ;
            }
            value = (value + (byte as u64 + 1) * p_pow) % HASH_M;
            p_pow = (p_pow * HASH_P) % HASH_M;
            index += 1;
        }
        proof {
            assert(bytes@.take(index as int) =~= bytes@);
        }
        Id { value, _phantom: PhantomData }
    }

    /// The identifier with the numeric value `value`: the way back from a
    /// value that [`value`](Id::value) gave and that was stored.
    pub fn from_value(value: u64) -> (id: Self)
        ensures
            id@ == value,
    {
        Id { value, _phantom: PhantomData }
    }

    /// The numeric value of the identifier.
    pub fn value(&self) -> (v: u64)
        ensures
            v == self@,
    {
        self.value
    }
}

impl<T> Clone for Id<T> {
    fn clone(&self) -> (copy: Self)
        ensures
            copy == *self,
    {
        *self
    }
}

impl<T> Copy for Id<T> {

}

impl<T> PartialEq for Id<T> {
    fn eq(&self, other: &Self) -> (equal: bool) {
        self.value == other.value
    }
}

impl<T> vstd::std_specs::cmp::PartialEqSpecImpl for Id<T> {
    open spec fn obeys_eq_spec() -> bool {
        true
    }

    open spec fn eq_spec(&self, other: &Self) -> bool {
        self@ == other@
    }
}

impl<T> Eq for Id<T> {

}

impl<T> PartialOrd for Id<T> {
    fn partial_cmp(&self, other: &Self) -> (order: Option<std::cmp::Ordering>) {
        if self.value < other.value {
            Some(std::cmp::Ordering::Less)
        } else if self.value == other.value {
            Some(std::cmp::Ordering::Equal)
        } else {
            Some(std::cmp::Ordering::Greater)
        }
    }
}

impl<T> vstd::std_specs::cmp::PartialOrdSpecImpl for Id<T> {
    open spec fn obeys_partial_cmp_spec() -> bool {
        true
    }

    open spec fn partial_cmp_spec(&self, other: &Self) -> Option<std::cmp::Ordering> {
        if self@ < other@ {
            Some(std::cmp::Ordering::Less)
        } else if self@ == other@ {
            Some(std::cmp::Ordering::Equal)
        } else {
            Some(std::cmp::Ordering::Greater)
        }
    }
}

impl<T> std::hash::Hash for Id<T> {
    /// Feeds the numeric value to the hasher, by `u64`'s own `hash`.
    #[verifier::external_body]
    fn hash<H: std::hash::Hasher>(&self, state: &mut H) {
        self.value.hash(state)
    }
}

/// One step of the rolling computation: extending a prefix by one byte adds
/// that byte's term, and both running values may be kept reduced.
proof fn lemma_hash_step(bytes: Seq<u8>, i: int)
    requires
        0 <= i < bytes.len(),
    ensures
        weighted_sum(bytes.take(i + 1)) % 1_000_000_009 == ((weighted_sum(bytes.take(i))
            % 1_000_000_009) + (bytes[i] + 1) * (pow(53, i as nat) % 1_000_000_009))
            % 1_000_000_009,
        pow(53, (i + 1) as nat) % 1_000_000_009 == ((pow(53, i as nat) % 1_000_000_009) * 53)
            % 1_000_000_009,
{
    let m = 1_000_000_009int;
    let next = bytes.take(i + 1);
    let term = (bytes[i] + 1) * pow(53, i as nat);
    assert(next.drop_last() =~= bytes.take(i));
    assert(next.last() == bytes[i]);
    assert(weighted_sum(next) == weighted_sum(bytes.take(i)) + term);
    lemma_mul_mod_noop_general(bytes[i] + 1, pow(53, i as nat), m);
    lemma_add_mod_noop(weighted_sum(bytes.take(i)), term, m);
    lemma_add_mod_noop(
        weighted_sum(bytes.take(i)) % m,
        (bytes[i] + 1) * (pow(53, i as nat) % m),
        m,
    );
    lemma_pow1(53);
    lemma_pow_adds(53, i as nat, 1);
    lemma_mul_mod_noop_general(pow(53, i as nat), 53, m);
}

} // verus!
