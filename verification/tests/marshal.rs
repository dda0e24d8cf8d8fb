use test_optimization_sdk::codec::{bool_to_Bool, get_now, Bool_to_bool, UnixTime};
use test_optimization_sdk::marshal::{
    decode_bytes, decode_field, encode_str, nul_position, EncodingError,
};
use test_optimization_sdk::mock_tracer::MockTracer;

#[test]
fn encode_appends_one_terminator() {
    assert_eq!(encode_str("abc"), Ok(vec![97u8, 98, 99, 0]));
}

#[test]
fn encode_empty_string_is_lone_terminator() {
    assert_eq!(encode_str(""), Ok(vec![0u8]));
}

#[test]
fn encode_keeps_multibyte_characters() {
    assert_eq!(encode_str("é"), Ok(vec![0xC3u8, 0xA9, 0]));
    assert_eq!(encode_str("日本"), Ok(vec![0xE6u8, 0x97, 0xA5, 0xE6, 0x9C, 0xAC, 0]));
}

#[test]
fn encode_refuses_embedded_nul() {
    assert_eq!(encode_str("ab\0cd"), Err(EncodingError { nul_position: 2 }));
    assert_eq!(encode_str("\0"), Err(EncodingError { nul_position: 0 }));
    assert_eq!(encode_str("é\0"), Err(EncodingError { nul_position: 2 }));
    assert_eq!(encode_str("a\0b\0"), Err(EncodingError { nul_position: 1 }));
}

#[test]
fn nul_position_finds_first_zero_or_end() {
    assert_eq!(nul_position(&[]), 0);
    assert_eq!(nul_position(&[1, 2, 3]), 3);
    assert_eq!(nul_position(&[1, 0, 3, 0]), 1);
    assert_eq!(nul_position(&[0]), 0);
}

#[test]
fn decode_reads_up_to_first_terminator() {
    assert_eq!(decode_bytes(b"abc\0def\0"), "abc");
    assert_eq!(decode_bytes(b"\0"), "");
    assert_eq!(decode_bytes(b""), "");
}

#[test]
fn decode_without_terminator_reads_everything() {
    assert_eq!(decode_bytes(b"abc"), "abc");
}

#[test]
fn decode_replaces_malformed_utf8() {
    assert_eq!(decode_bytes(&[0x66, 0xFF, 0x6F, 0]), "f\u{FFFD}o");
    assert_eq!(decode_bytes(&[0xC3, 0]), "\u{FFFD}");
}

#[test]
fn decode_null_field_is_empty_string() {
    assert_eq!(decode_field(&None), "");
    assert_eq!(decode_field(&Some(vec![104, 105, 0])), "hi");
    assert_eq!(decode_field(&Some(vec![])), "");
}

#[test]
fn encode_then_decode_gives_the_string_back() {
    let samples = ["", "a", "hello world", "tag1=value1,tag2=value2", "é日本🙂", "line\nbreak\ttab"];
    for s in samples {
        let buffer = encode_str(s).unwrap();
        assert_eq!(buffer.len(), s.len() + 1);
        assert_eq!(decode_bytes(&buffer), s);
        assert_eq!(decode_field(&Some(buffer)), s);
    }
}

#[test]
fn foreign_boolean_is_true_unless_zero() {
    assert!(!Bool_to_bool(0));
    assert!(Bool_to_bool(1));
    assert!(Bool_to_bool(2));
    assert!(Bool_to_bool(255));
}

#[test]
fn host_boolean_is_written_as_zero_or_one() {
    assert_eq!(bool_to_Bool(false), 0);
    assert_eq!(bool_to_Bool(true), 1);
    assert!(Bool_to_bool(bool_to_Bool(true)));
    assert!(!Bool_to_bool(bool_to_Bool(false)));
}

#[test]
fn now_has_subsecond_nanoseconds() {
    let a = get_now();
    let b = get_now();
    assert!(a.nsec < 1_000_000_000);
    assert!(b.nsec < 1_000_000_000);
    assert!(a.sec > 1_500_000_000);
    assert!(a.not_after(&b));
}

#[test]
fn timestamp_from_parts_and_elapsed() {
    assert_eq!(UnixTime::from_parts(5, 7), UnixTime { sec: 5, nsec: 7 });
    assert_eq!(UnixTime::from_elapsed(Some((12, 999_999_999))), UnixTime { sec: 12, nsec: 999_999_999 });
    assert_eq!(UnixTime::from_elapsed(None), UnixTime { sec: 0, nsec: 0 });
}

#[test]
fn timestamps_compare_by_seconds_first() {
    let early = UnixTime { sec: 1, nsec: 900 };
    let late = UnixTime { sec: 2, nsec: 100 };
    assert!(early.not_after(&late));
    assert!(!late.not_after(&early));
    assert!(early.not_after(&early));
    assert!(UnixTime { sec: 2, nsec: 99 }.not_after(&late));
    assert!(!UnixTime { sec: 2, nsec: 101 }.not_after(&late));
}

#[test]
fn native_timestamp_converts_to_time_since_epoch() {
    assert_eq!(MockTracer::convert_unix_time(&UnixTime { sec: 10, nsec: 5 }), Some((10, 5)));
    assert_eq!(
        MockTracer::convert_unix_time(&UnixTime { sec: 10, nsec: 2_500_000_000 }),
        Some((12, 500_000_000))
    );
    // Only the low 32 bits of the nanosecond field count.
    assert_eq!(
        MockTracer::convert_unix_time(&UnixTime { sec: 1, nsec: 0x1_0000_0000 + 7 }),
        Some((1, 7))
    );
    assert_eq!(MockTracer::convert_unix_time(&UnixTime { sec: u64::MAX, nsec: 999_999_999 }), Some((u64::MAX, 999_999_999)));
    assert_eq!(MockTracer::convert_unix_time(&UnixTime { sec: u64::MAX, nsec: 1_000_000_000 }), None);
}
