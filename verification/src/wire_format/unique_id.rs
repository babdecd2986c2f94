//! The 64 bit identifier underlying both service ids and connection ids.

use vstd::prelude::*;
use crate::text::{hex_digits, push_char, push_hex};

verus! {

/// What xxHash64 (seed 0) computes of a byte string.
pub uninterp spec fn xxhash64(data: Seq<u8>) -> u64;

/// xxHash64 with seed 0 of `data`, computed by the `twox_hash` crate: its `XxHash64::default()`
/// hasher fed `data` with one `write`, then `finish`. The result is the named hash of the bytes.
#[verifier::external_body]
fn xxhash64_of(data: &[u8]) -> (h: u64)
    ensures
        h == xxhash64(data@),
{
    let mut hasher = twox_hash::XxHash64::default();
    std::hash::Hasher::write(&mut hasher, data);
    std::hash::Hasher::finish(&hasher)
}

/// A random `u64` from the thread local generator of the `rand` crate (`rand::thread_rng().gen()`).
/// Nothing is known of the value.
#[verifier::external_body]
fn random_u64() -> u64 {
    rand::Rng::gen::<u64>(&mut rand::thread_rng())
}

/// The text `{:#018x}` gives for `v`: `0x` followed by sixteen lower case hexadecimal digits.
pub open spec fn hex_u64(v: u64) -> Seq<char> {
    seq!['0', 'x'] + hex_digits(v as nat, 16)
}

/// A unique identifier for a service or a connection. Two values are reserved: all zero bits
/// (null, the absence of an id) and all one bits (full, reserved to detect error conditions).
#[derive(Clone, Copy, PartialEq, Eq, Structural, Hash, Debug)]
pub struct UniqueID {
    pub id: u64,
}

impl View for UniqueID {
    type V = u64;

    open spec fn view(&self) -> u64 {
        self.id
    }
}

impl UniqueID {
    /// A random id.
    pub fn random() -> (r: Self) {
        Self { id: random_u64() }
    }

    /// The id seeded by `data`: its xxHash64. Identical input always gives an identical id.
    pub fn from_seed(data: &[u8]) -> (r: Self)
        ensures
            r@ == xxhash64(data@),
    {
        Self { id: xxhash64_of(data) }
    }

    /// The empty id (all zero bits).
    pub fn null() -> (r: Self)
        ensures
            r@ == 0,
    {
        Self { id: 0 }
    }

    /// The full id (all one bits), reserved.
    pub fn full() -> (r: Self)
        ensures
            r@ == u64::MAX,
    {
        Self { id: u64::MAX }
    }

    /// Whether all bits are zero.
    pub fn is_null(&self) -> (r: bool)
        ensures
            r == (self@ == 0),
    {
        self.id == 0
    }

    /// Whether all bits are one.
    pub fn is_full(&self) -> (r: bool)
        ensures
            r == (self@ == u64::MAX),
    {
        self.id == u64::MAX
    }

    /// The debug rendering: `0x` and sixteen hexadecimal digits, leading zeros kept.
    pub fn to_hex_string(&self) -> (s: String)
        ensures
            s@ == hex_u64(self@),
    {
        let mut s = String::new();
        push_char(&mut s, '0');
        push_char(&mut s, 'x');
        push_hex(&mut s, self.id, 16);
        assert(s@ =~= hex_u64(self@));
        s
    }
}

impl From<u64> for UniqueID {
    fn from(id: u64) -> (r: Self) {
        Self { id }
    }
}

impl vstd::std_specs::convert::FromSpecImpl<u64> for UniqueID {
    open spec fn obeys_from_spec() -> bool {
        true
    }

    open spec fn from_spec(id: u64) -> Self {
        Self { id }
    }
}

impl From<UniqueID> for u64 {
    fn from(u: UniqueID) -> (r: u64) {
        u.id
    }
}

impl vstd::std_specs::convert::FromSpecImpl<UniqueID> for u64 {
    open spec fn obeys_from_spec() -> bool {
        true
    }

    open spec fn from_spec(u: UniqueID) -> u64 {
        u.id
    }
}

} // verus!
