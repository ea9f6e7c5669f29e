//! Tests of the low-level coercions and of the reply map.

use async_mpd::duration::{parse_decimal, parse_duration};
use async_mpd::numbers::{parse_i32, parse_u32, parse_u64, u32_to_dec};
use async_mpd::respmap::parse_bint;
use async_mpd::text::{split_kv, str_eq, str_starts_with, trim_eol};
use async_mpd::{Duration, RespMap};

#[test]
fn bint_one_is_true() {
    assert_eq!(parse_bint("1").unwrap(), true);
}

#[test]
fn bint_zero_is_false() {
    assert_eq!(parse_bint("0").unwrap(), false);
}

#[test]
fn bint_other_token_is_value_error() {
    let e = parse_bint("2").unwrap_err();
    match e {
        async_mpd::Error::ValueError { msg } => assert_eq!(msg, "2"),
        other => panic!("wrong error class: {}", other.label()),
    }
    assert!(parse_bint("true").is_err());
    assert!(parse_bint("").is_err());
}

#[test]
fn duration_fractional_seconds_exact() {
    let d = parse_duration("149.029").unwrap();
    assert_eq!(d, Duration { secs: 149, nanos: 29_000_000 });
    let total = d.secs as f64 + d.nanos as f64 / 1e9;
    assert!((total - 149.029).abs() < 1e-9);
}

#[test]
fn duration_integer_and_edge_forms() {
    assert_eq!(parse_duration("307.760").unwrap(), Duration { secs: 307, nanos: 760_000_000 });
    assert_eq!(parse_duration("42").unwrap(), Duration { secs: 42, nanos: 0 });
    assert_eq!(parse_duration("42.").unwrap(), Duration { secs: 42, nanos: 0 });
    assert_eq!(parse_duration(".5").unwrap(), Duration { secs: 0, nanos: 500_000_000 });
    // beyond nanosecond precision the digits are dropped
    assert_eq!(
        parse_duration("1.1234567891").unwrap(),
        Duration { secs: 1, nanos: 123_456_789 }
    );
    assert!(parse_duration("").is_none());
    assert!(parse_duration(".").is_none());
    assert!(parse_duration("1.2.3").is_none());
    assert!(parse_duration("-1").is_none());
    assert!(parse_duration("abc").is_none());
}

#[test]
fn decimal_signed_forms() {
    let z = parse_decimal("0.000000").unwrap();
    assert_eq!(z, async_mpd::Decimal::default());
    let neg = parse_decimal("-17.500000").unwrap();
    assert!(neg.negative);
    assert_eq!(neg.whole, 17);
    assert_eq!(neg.nanos, 500_000_000);
    assert!(parse_decimal("-").is_none());
}

#[test]
fn unsigned_decimal_parsing() {
    assert_eq!(parse_u64("0"), Some(0));
    assert_eq!(parse_u64("18446744073709551615"), Some(u64::MAX));
    assert_eq!(parse_u64("18446744073709551616"), None);
    assert_eq!(parse_u32("4294967295"), Some(u32::MAX));
    assert_eq!(parse_u32("4294967296"), None);
    assert_eq!(parse_u32("141"), Some(141));
    assert_eq!(parse_u32(""), None);
    assert_eq!(parse_u32("+3"), None);
    assert_eq!(parse_u32("1 2"), None);
}

#[test]
fn signed_decimal_parsing() {
    assert_eq!(parse_i32("-2147483648"), Some(i32::MIN));
    assert_eq!(parse_i32("2147483647"), Some(i32::MAX));
    assert_eq!(parse_i32("-2147483649"), None);
    assert_eq!(parse_i32("-0"), Some(0));
    assert_eq!(parse_i32("23"), Some(23));
    assert_eq!(parse_i32("-"), None);
}

#[test]
fn decimal_rendering() {
    assert_eq!(u32_to_dec(0), "0");
    assert_eq!(u32_to_dec(7), "7");
    assert_eq!(u32_to_dec(149), "149");
    assert_eq!(u32_to_dec(u32::MAX), "4294967295");
}

#[test]
fn text_helpers() {
    assert!(str_eq("OK", "OK"));
    assert!(!str_eq("OK", "OK "));
    assert!(str_starts_with("ACK [5@0] {play}", "ACK "));
    assert!(!str_starts_with("ACKNOWLEDGE", "ACK "));
    assert_eq!(trim_eol("status\r\n"), "status");
    assert_eq!(trim_eol("status\n"), "status");
    assert_eq!(trim_eol("status"), "status");
    assert_eq!(trim_eol("\n"), "");
    let (k, v) = split_kv("Title: Some: Song").unwrap();
    assert_eq!(k, "Title");
    assert_eq!(v, "Some: Song");
    assert!(split_kv("no separator here").is_none());
    assert!(split_kv("colon:but-no-space").is_none());
}

#[test]
fn all_values_in_insertion_order() {
    let lines: Vec<String> = vec![
        "Composer: Bach".to_string(),
        "Title: Air".to_string(),
        "Composer: Mahler".to_string(),
        "Composer: Ravel".to_string(),
    ];
    let mut map = RespMap::from_lines(&lines);
    assert!(map.contains_key("Composer"));
    let vals = map.get_vec("Composer");
    assert_eq!(vals, vec!["Bach", "Mahler", "Ravel"]);
    // the extractor consumes the key
    assert!(!map.contains_key("Composer"));
    assert!(map.contains_key("Title"));
}

#[test]
fn respmap_operations() {
    let mut map = RespMap::new();
    assert!(map.is_empty());
    map.insert("volume", "50");
    map.insert("volume", "60");
    assert!(!map.is_empty());
    assert!(map.contains_key("volume"));
    assert!(!map.contains_key("Volume"));
    // the single-value extractor takes the last value
    let v = map.get_str("volume").unwrap();
    assert_eq!(v, "60");
    assert!(map.is_empty());
    assert!(map.get_str("volume").is_none());
}

#[test]
fn respmap_typed_extractors() {
    let lines: Vec<String> =
        vec!["bitrate: 878".to_string(), "songid: 2".to_string(), "elapsed: 149.029".to_string()];
    let mut map = RespMap::from_lines(&lines);
    assert_eq!(map.get_u32("songid"), Some(2));
    assert_eq!(map.as_duration("elapsed"), Some(Duration { secs: 149, nanos: 29_000_000 }));
    assert_eq!(map.get_u32("bitrate"), Some(878));
    assert_eq!(map.get_def_u32("missing"), 0);
    assert_eq!(map.as_duration_def("missing"), Duration { secs: 0, nanos: 0 });
}

#[test]
fn timestamp_parse_through_track() {
    let t = async_mpd::timestamp::parse_datetime("2020-01-01T00:00:00Z").unwrap();
    assert_eq!(t.secs, 1577836800);
    assert_eq!(t.nanos, 0);
    assert!(async_mpd::timestamp::parse_datetime("yesterday").is_none());
}

#[test]
fn line_splitting() {
    let lines = async_mpd::respmap::split_lines("a\r\nb\n\nc");
    assert_eq!(lines, vec!["a", "b", "", "c"]);
    assert!(async_mpd::respmap::split_lines("").is_empty());
    assert_eq!(async_mpd::respmap::split_lines("x\n"), vec!["x"]);
}
