//! A raw identifier and the fields decoded from it.
use vstd::prelude::*;
use crate::codec::{
    counter_field, node_field, raw_bits, timestamp_field, MAX_NODE_COUNTER, MAX_NODE_IDENTIFIER,
    MAX_TIMESTAMP_DELTA, NODE_COUNTER_BITS, NODE_IDENTIFIER_BITS,
};

verus! {

/// A raw 64-bit identifier, generated here or elsewhere. Any `i64` is
/// accepted: decoding masks each field, so it never fails.
pub struct FsdkUid {
    fsuid: i64,
}

impl View for FsdkUid {
    type V = i64;

    closed spec fn view(&self) -> i64 {
        self.fsuid
    }
}

impl FsdkUid {
    /// Wraps a raw value for decoding.
    pub fn new(fsuid: i64) -> (r: Self)
        ensures
            r@ == fsuid,
    {
        FsdkUid { fsuid }
    }

    /// The raw value.
    pub fn i64(&self) -> (r: i64)
        ensures
            r == self@,
    {
        self.fsuid
    }

    /// Milliseconds since the Unix epoch, truncated to 48 bits.
    pub fn timestamp_delta(&self) -> (r: i64)
        ensures
            r == timestamp_field(raw_bits(self@)),
            0 <= r <= MAX_TIMESTAMP_DELTA,
    {
        let bits = self.fsuid as u64;
        let t = (bits >> (NODE_IDENTIFIER_BITS + NODE_COUNTER_BITS)) & MAX_TIMESTAMP_DELTA;
        assert(t == (bits / 0x1_0000) % 0x1_0000_0000_0000 && t <= 0xffff_ffff_ffff) by (bit_vector)
            requires
                t == (bits >> 16u64) & 0xffff_ffff_ffff,
        ;
        t as i64
    }

    /// The identifier of the node that generated it.
    pub fn node_identifier(&self) -> (r: u8)
        ensures
            r == node_field(raw_bits(self@)),
    {
        let bits = self.fsuid as u64;
        let n = (bits >> NODE_COUNTER_BITS) & (MAX_NODE_IDENTIFIER as u64);
        assert(n == (bits / 0x100) % 0x100 && n < 0x100) by (bit_vector)
            requires
                n == (bits >> 8u64) & 0xff,
        ;
        n as u8
    }

    /// The node counter it was generated with.
    pub fn node_counter(&self) -> (r: u8)
        ensures
            r == counter_field(raw_bits(self@)),
    {
        let bits = self.fsuid as u64;
        let c = bits & (MAX_NODE_COUNTER as u64);
        assert(c == bits % 0x100 && c < 0x100) by (bit_vector)
            requires
                c == bits & 0xff,
        ;
        c as u8
    }
}

} // verus!
