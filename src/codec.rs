//! The bit layout of an identifier, most significant field first:
//! 48 bits of timestamp delta, 8 bits of node identifier, 8 bits of node counter.
use vstd::prelude::*;

verus! {

/// Width of the timestamp delta field.
pub const TIMESTAMP_DELTA_BITS: u64 = 48;

/// Width of the node identifier field.
pub const NODE_IDENTIFIER_BITS: u64 = 8;

/// Width of the node counter field.
pub const NODE_COUNTER_BITS: u64 = 8;

/// Largest timestamp delta the layout can hold: `2^48 - 1`.
pub const MAX_TIMESTAMP_DELTA: u64 = 0xffff_ffff_ffff;

/// Largest node identifier the layout can hold: `2^8 - 1`.
pub const MAX_NODE_IDENTIFIER: u8 = 0xff;

/// Largest node counter the layout can hold: `2^8 - 1`.
pub const MAX_NODE_COUNTER: u8 = 0xff;

/// The 64 bits of a raw identifier, read as an unsigned number.
pub open spec fn raw_bits(raw: i64) -> int {
    (raw as u64) as int
}

/// The unsigned 64-bit value whose fields are `t`, `n` and `c`.
pub open spec fn compose(t: int, n: int, c: int) -> int {
    t * 0x1_0000 + n * 0x100 + c
}

/// The timestamp delta field of a 64-bit value.
pub open spec fn timestamp_field(bits: int) -> int {
    (bits / 0x1_0000) % 0x1_0000_0000_0000
}

/// The node identifier field of a 64-bit value.
pub open spec fn node_field(bits: int) -> int {
    (bits / 0x100) % 0x100
}

/// The node counter field of a 64-bit value.
pub open spec fn counter_field(bits: int) -> int {
    bits % 0x100
}

/// Packs the three fields into a raw identifier. Bits of `timestamp_delta`
/// above the field's width are dropped.
pub fn encode(timestamp_delta: u64, node_identifier: u8, node_counter: u8) -> (r: i64)
    ensures
        raw_bits(r) == compose(
            (timestamp_delta % 0x1_0000_0000_0000) as int,
            node_identifier as int,
            node_counter as int,
        ),
{
    let t = timestamp_delta & MAX_TIMESTAMP_DELTA;
    let n = node_identifier as u64;
    let c = node_counter as u64;
    let bits: u64 = (t << (NODE_IDENTIFIER_BITS + NODE_COUNTER_BITS)) | (n << NODE_COUNTER_BITS) | c;
    assert(((bits as i64) as u64) == bits) by (bit_vector);
    assert(bits == (timestamp_delta % 0x1_0000_0000_0000) * 0x1_0000 + n * 0x100 + c) by (bit_vector)
        requires
            t == timestamp_delta & 0xffff_ffff_ffff,
            n < 0x100,
            c < 0x100,
            bits == (t << 16u64) | (n << 8u64) | c,
    ;
    bits as i64
}

/// Decoding a packed value gives back the fields it was packed from, for
/// every timestamp delta, node identifier and node counter within their widths.
pub proof fn lemma_round_trip(t: int, n: int, c: int)
    requires
        0 <= t <= MAX_TIMESTAMP_DELTA,
        0 <= n <= MAX_NODE_IDENTIFIER,
        0 <= c <= MAX_NODE_COUNTER,
    ensures
        timestamp_field(compose(t, n, c)) == t,
        node_field(compose(t, n, c)) == n,
        counter_field(compose(t, n, c)) == c,
{
    let low = n * 0x100 + c;
    assert(0 <= low < 0x1_0000) by (nonlinear_arith)
        requires
            low == n * 0x100 + c,
            0 <= n < 0x100,
            0 <= c < 0x100,
    ;
    assert(compose(t, n, c) / 0x1_0000 == t) by (nonlinear_arith)
        requires
            compose(t, n, c) == t * 0x1_0000 + low,
            0 <= low < 0x1_0000,
    ;
    assert(compose(t, n, c) / 0x100 == t * 0x100 + n) by (nonlinear_arith)
        requires
            compose(t, n, c) == (t * 0x100 + n) * 0x100 + c,
            0 <= c < 0x100,
    ;
    assert((t * 0x100 + n) % 0x100 == n) by (nonlinear_arith)
        requires
            0 <= n < 0x100,
            t >= 0,
    ;
    assert(compose(t, n, c) % 0x100 == c) by (nonlinear_arith)
        requires
            compose(t, n, c) == (t * 0x100 + n) * 0x100 + c,
            t >= 0,
            n >= 0,
            0 <= c < 0x100,
    ;
}

/// An identifier packed at a later millisecond sorts after one packed at an
/// earlier millisecond, whatever the node identifiers and counters: this is
/// what keeps the order when the counter wraps back to zero.
pub proof fn lemma_later_timestamp_sorts_after(t1: int, n1: int, c1: int, t2: int, n2: int, c2: int)
    requires
        0 <= t1 < t2,
        0 <= n1 <= MAX_NODE_IDENTIFIER,
        0 <= c1 <= MAX_NODE_COUNTER,
        0 <= n2 <= MAX_NODE_IDENTIFIER,
        0 <= c2 <= MAX_NODE_COUNTER,
    ensures
        compose(t1, n1, c1) < compose(t2, n2, c2),
{
    assert(compose(t1, n1, c1) < compose(t2, n2, c2)) by (nonlinear_arith)
        requires
            0 <= t1 < t2,
            0 <= n1 < 0x100,
            0 <= c1 < 0x100,
            0 <= n2 < 0x100,
            0 <= c2 < 0x100,
    ;
}

} // verus!
