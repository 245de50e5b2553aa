use fsdkuid::codec::{encode, MAX_NODE_COUNTER, MAX_NODE_IDENTIFIER, MAX_TIMESTAMP_DELTA};
use fsdkuid::generator::FsdkUidGenerator;
use fsdkuid::identifier::FsdkUid;

#[test]
fn encode_known_value() {
    assert_eq!(encode(1726257270642, 1, 0), 113131996488794368);
}

#[test]
fn encode_then_decode_gives_fields_back() {
    let cases: [(u64, u8, u8); 5] = [
        (0, 0, 0),
        (1726257270642, 1, 0),
        (123456789, 42, 200),
        (MAX_TIMESTAMP_DELTA, MAX_NODE_IDENTIFIER, MAX_NODE_COUNTER),
        (0x7fff_ffff_ffff, 7, 255),
    ];
    for (t, n, c) in cases {
        let uid = FsdkUid::new(encode(t, n, c));
        assert_eq!(uid.timestamp_delta(), t as i64);
        assert_eq!(uid.node_identifier(), n);
        assert_eq!(uid.node_counter(), c);
    }
}

#[test]
fn encode_all_fields_at_maximum_sets_every_bit() {
    assert_eq!(encode(MAX_TIMESTAMP_DELTA, 255, 255), -1);
}

#[test]
fn encode_drops_timestamp_bits_beyond_width() {
    assert_eq!(encode(MAX_TIMESTAMP_DELTA + 1 + 5, 2, 3), encode(5, 2, 3));
    assert_eq!(FsdkUid::new(encode(MAX_TIMESTAMP_DELTA + 1 + 5, 2, 3)).timestamp_delta(), 5);
}

#[test]
fn decode_negative_raw_value_masks_fields() {
    let uid = FsdkUid::new(-1);
    assert_eq!(uid.i64(), -1);
    assert_eq!(uid.timestamp_delta(), 0xffff_ffff_ffff);
    assert_eq!(uid.node_identifier(), 255);
    assert_eq!(uid.node_counter(), 255);
}

#[test]
fn decode_small_raw_value() {
    let uid = FsdkUid::new(0x0102_0304);
    assert_eq!(uid.timestamp_delta(), 0x0102);
    assert_eq!(uid.node_identifier(), 3);
    assert_eq!(uid.node_counter(), 4);
}

#[test]
fn constants_match_field_widths() {
    assert_eq!(MAX_TIMESTAMP_DELTA, (1u64 << 48) - 1);
    assert_eq!(MAX_NODE_IDENTIFIER, 255);
    assert_eq!(MAX_NODE_COUNTER, 255);
}

#[test]
fn generator_with_largest_node_identifier_is_built() {
    let generator = FsdkUidGenerator::new(MAX_NODE_IDENTIFIER);
    assert_eq!(generator.node_identifier(), 255);
    let uid = generator.generate_fsuid(9, 1726257270642);
    assert_eq!(uid.node_identifier(), 255);
    assert_eq!(uid.node_counter(), 9);
    assert_eq!(uid.timestamp_delta(), 1726257270642);
}

#[test]
fn generator_counter_counts_up_and_wraps() {
    let generator = FsdkUidGenerator::new(3);
    for expected in 0..=255u8 {
        assert_eq!(generator.next_counter(), expected);
    }
    assert_eq!(generator.next_counter(), 0);
    assert_eq!(generator.next_counter(), 1);
}

#[test]
fn wait_is_required_only_at_counter_zero() {
    assert!(FsdkUidGenerator::must_wait_before_clock_read(0));
    assert!(!FsdkUidGenerator::must_wait_before_clock_read(1));
    assert!(!FsdkUidGenerator::must_wait_before_clock_read(255));
}

#[test]
fn generate_packs_node_counter_and_time() {
    let generator = FsdkUidGenerator::new(1);
    assert_eq!(generator.generate_i64(0, 1726257270642), 113131996488794368);
    let uid = generator.generate_fsuid(0, 1726257270642);
    assert_eq!(uid.i64(), 113131996488794368);
}

#[test]
fn same_node_distinct_counters_do_not_collide() {
    let generator = FsdkUidGenerator::new(0);
    let now = 1726257270642u64;
    assert_ne!(generator.generate_i64(0, now), generator.generate_i64(1, now));
}

#[test]
fn distinct_nodes_do_not_collide() {
    let first = FsdkUidGenerator::new(0);
    let second = FsdkUidGenerator::new(1);
    let now = 1726257270642u64;
    assert_ne!(first.generate_i64(5, now), second.generate_i64(5, now));
}

#[test]
fn wrapped_identifier_sorts_after_earlier_ones() {
    let generator = FsdkUidGenerator::new(4);
    let before = 1726257270642u64;
    let last_before_wrap = generator.generate_fsuid(255, before);
    let at_wrap = generator.generate_fsuid(0, before + 1);
    let after_wrap = generator.generate_fsuid(1, before + 1);
    assert!(at_wrap.i64() > last_before_wrap.i64());
    assert!(at_wrap.timestamp_delta() > last_before_wrap.timestamp_delta());
    assert_eq!(at_wrap.node_counter(), 0);
    assert_eq!(after_wrap.node_counter(), 1);
    assert_eq!(at_wrap.node_identifier(), last_before_wrap.node_identifier());
    assert!(after_wrap.i64() > at_wrap.i64());
}

#[test]
fn clock_reading_fits_in_timestamp_field_today() {
    let now = fsdkuid::clock::fsdkuid_get_current_unix_timestamp_milliseconds().unwrap();
    assert!(now > 1_700_000_000_000);
    assert!(now <= MAX_TIMESTAMP_DELTA);
}
