//! A counter whose current value can be encoded into a nonce, so that
//! distinct counter values give distinct nonces.

use vstd::prelude::*;

use crate::error::Unspecified;
use crate::nonce::{lemma_nonce_of_bytes, nonce_of, Nonce, NONCE_LEN};

verus! {

/// A counter value, as read by the caller that advances it.
pub struct Counter {
    value: u32,
}

impl View for Counter {
    type V = u32;

    closed spec fn view(&self) -> u32 {
        self.value
    }
}

/// The four bytes of `v`, most significant first.
pub open spec fn be_bytes_u32(v: u32) -> Seq<u8> {
    seq![(v >> 24u32) as u8, (v >> 16u32) as u8, (v >> 8u32) as u8, v as u8]
}

/// The nonce bytes for counter value `v`: eight zero bytes, then `v` in
/// big-endian order in the last four.
pub open spec fn counter_nonce_bytes(v: u32) -> Seq<u8> {
    Seq::new(8, |_i: int| 0u8) + be_bytes_u32(v)
}

impl Counter {
    /// A counter that currently holds `value`.
    pub fn new(value: u32) -> (r: Counter)
        ensures
            r@ == value,
    {
        Counter { value }
    }

    /// The counter's current value.
    pub fn value(&self) -> (r: u32)
        ensures
            r == self@,
    {
        self.value
    }
}

/// Distinct counter values are encoded as distinct nonces.
pub proof fn lemma_distinct_counters_give_distinct_nonces(a: Counter, b: Counter)
    requires
        a@ != b@,
    ensures
        counter_nonce_bytes(a@) != counter_nonce_bytes(b@),
{
    let x: u32 = a@;
    let y: u32 = b@;
    if counter_nonce_bytes(x) == counter_nonce_bytes(y) {
        assert(counter_nonce_bytes(x)[8] == counter_nonce_bytes(y)[8]);
        assert(counter_nonce_bytes(x)[9] == counter_nonce_bytes(y)[9]);
        assert(counter_nonce_bytes(x)[10] == counter_nonce_bytes(y)[10]);
        assert(counter_nonce_bytes(x)[11] == counter_nonce_bytes(y)[11]);
        assert(x == y) by (bit_vector)
            requires
                (x >> 24u32) as u8 == (y >> 24u32) as u8,
                (x >> 16u32) as u8 == (y >> 16u32) as u8,
                (x >> 8u32) as u8 == (y >> 8u32) as u8,
                x as u8 == y as u8,
        ;
    }
}

impl TryFrom<&Counter> for Nonce {
    type Error = Unspecified;

    /// Encodes the counter's current value: zeros in the first eight bytes,
    /// the value in big-endian order in the last four. Every `u32` value is
    /// representable, so this never fails.
    fn try_from(counter: &Counter) -> (r: Result<Self, Unspecified>)
        ensures
            r matches Ok(n) && n@ == counter_nonce_bytes(counter@),
    {
        let v: u32 = counter.value;
        let bytes: [u8; NONCE_LEN] = [
            0u8,
            0u8,
            0u8,
            0u8,
            0u8,
            0u8,
            0u8,
            0u8,
            (v >> 24u32) as u8,
            (v >> 16u32) as u8,
            (v >> 8u32) as u8,
            v as u8,
        ];
        let n = Nonce::assume_unique_for_key(bytes);
        assert(n@ =~= counter_nonce_bytes(v));
        proof {
            lemma_nonce_of_bytes(n);
        }
        Ok(n)
    }
}

impl vstd::std_specs::convert::TryFromSpecImpl<&Counter> for Nonce {
    open spec fn obeys_try_from_spec() -> bool {
        true
    }

    open spec fn try_from_spec(counter: &Counter) -> Result<Nonce, Unspecified> {
        Ok(nonce_of(counter_nonce_bytes(counter@)))
    }
}

} // verus!
