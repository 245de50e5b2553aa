//! A node's identifier generator: a fixed node identifier and a shared
//! atomic counter.
use vstd::prelude::*;
use std::sync::atomic::{AtomicU8, Ordering};
use crate::codec::{
    compose, counter_field, encode, lemma_later_timestamp_sorts_after, lemma_round_trip, node_field,
    raw_bits, MAX_NODE_IDENTIFIER,
};
use crate::identifier::FsdkUid;

verus! {

/// Generates identifiers for one node. The counter is atomic, so one
/// generator can be shared by many threads.
///
/// Producing one identifier takes three steps: `next_counter` reserves a
/// counter value; when `must_wait_before_clock_read` says so, the caller
/// lets at least one millisecond pass; then the clock is read and
/// `generate_i64` (or `generate_fsuid`) packs the fields.
pub struct FsdkUidGenerator {
    node_identifier: u8,
    counter: AtomicU8,
}

impl FsdkUidGenerator {
    /// The node identifier this generator was made with.
    pub closed spec fn node(&self) -> u8 {
        self.node_identifier
    }

    /// A generator for the given node, with its counter at zero.
    pub fn new(node_identifier: u8) -> (r: Self)
        requires
            node_identifier <= MAX_NODE_IDENTIFIER,
        ensures
            r.node() == node_identifier,
    {
        FsdkUidGenerator { node_identifier, counter: AtomicU8::new(0) }
    }

    /// The node identifier this generator was made with.
    pub fn node_identifier(&self) -> (r: u8)
        ensures
            r == self.node(),
    {
        self.node_identifier
    }

    /// Atomically increments the counter (wrapping from 255 to 0) and returns
    /// the value it held before. Other threads may increment it meanwhile, so
    /// no value is promised.
    pub fn next_counter(&self) -> (r: u8) {
        self.counter.fetch_add(1, Ordering::SeqCst)
    }

    /// Whether the caller must let the clock move on by at least one
    /// millisecond before reading it: true exactly for counter value zero,
    /// the first value and the one after each wrap.
    pub fn must_wait_before_clock_read(counter: u8) -> (r: bool)
        ensures
            r == (counter == 0),
    {
        counter == 0
    }

    /// The raw identifier for a reserved counter value and a clock reading in
    /// milliseconds since the Unix epoch (truncated to 48 bits).
    pub fn generate_i64(&self, counter: u8, now_millis: u64) -> (r: i64)
        ensures
            raw_bits(r) == compose(delta_of(now_millis), self.node() as int, counter as int),
    {
        encode(now_millis, self.node_identifier, counter)
    }

    /// `generate_i64` wrapped for decoding.
    pub fn generate_fsuid(&self, counter: u8, now_millis: u64) -> (r: FsdkUid)
        ensures
            raw_bits(r@) == compose(delta_of(now_millis), self.node() as int, counter as int),
    {
        let fsuid_i64 = self.generate_i64(counter, now_millis);
        FsdkUid::new(fsuid_i64)
    }
}

/// The timestamp delta a clock reading is packed with.
pub open spec fn delta_of(now_millis: u64) -> int {
    (now_millis % 0x1_0000_0000_0000) as int
}

/// One generator never hands out the same identifier for two different
/// counter values, whatever the clock read: two calls in a row reserve
/// different counter values, so they never collide.
pub proof fn lemma_same_node_distinct_counters_never_collide(
    g: &FsdkUidGenerator,
    c1: u8,
    now1: u64,
    c2: u8,
    now2: u64,
)
    requires
        c1 != c2,
    ensures
        compose(delta_of(now1), g.node() as int, c1 as int) != compose(
            delta_of(now2),
            g.node() as int,
            c2 as int,
        ),
{
    lemma_round_trip(delta_of(now1), g.node() as int, c1 as int);
    lemma_round_trip(delta_of(now2), g.node() as int, c2 as int);
}

/// Generators of different nodes never hand out the same identifier,
/// whatever the counters and the clock readings.
pub proof fn lemma_distinct_nodes_never_collide(
    g1: &FsdkUidGenerator,
    c1: u8,
    now1: u64,
    g2: &FsdkUidGenerator,
    c2: u8,
    now2: u64,
)
    requires
        g1.node() != g2.node(),
    ensures
        compose(delta_of(now1), g1.node() as int, c1 as int) != compose(
            delta_of(now2),
            g2.node() as int,
            c2 as int,
        ),
{
    lemma_round_trip(delta_of(now1), g1.node() as int, c1 as int);
    lemma_round_trip(delta_of(now2), g2.node() as int, c2 as int);
}

/// Across a counter wrap: once the clock reads a later millisecond than it
/// did for an earlier identifier of the same node (within the 48-bit range),
/// the identifier issued at the wrap sorts after it, decodes to counter zero
/// and keeps the node identifier, and the one after it decodes to counter one.
pub proof fn lemma_wrap_keeps_order(
    g: &FsdkUidGenerator,
    earlier_counter: u8,
    earlier_millis: u64,
    wrap_millis: u64,
    next_millis: u64,
)
    requires
        earlier_millis < wrap_millis <= 0xffff_ffff_ffff,
    ensures
        compose(delta_of(earlier_millis), g.node() as int, earlier_counter as int) < compose(
            delta_of(wrap_millis),
            g.node() as int,
            0,
        ),
        counter_field(compose(delta_of(wrap_millis), g.node() as int, 0)) == 0,
        node_field(compose(delta_of(wrap_millis), g.node() as int, 0)) == g.node(),
        counter_field(compose(delta_of(next_millis), g.node() as int, 1)) == 1,
        node_field(compose(delta_of(next_millis), g.node() as int, 1)) == g.node(),
{
    lemma_later_timestamp_sorts_after(
        delta_of(earlier_millis),
        g.node() as int,
        earlier_counter as int,
        delta_of(wrap_millis),
        g.node() as int,
        0,
    );
    lemma_round_trip(delta_of(wrap_millis), g.node() as int, 0);
    lemma_round_trip(delta_of(next_millis), g.node() as int, 1);
}

} // verus!
