use timestamp_codec::codec::{decode, decode_at, encode};
use timestamp_codec::timestamp::{days_in_month, is_leap_year};
use timestamp_codec::LocalTimestamp;

fn sample() -> LocalTimestamp {
    LocalTimestamp {
        year: 2023,
        month: 1,
        day: 5,
        hour: 9,
        minute: 2,
        second: 7,
        offset_seconds: 3600,
    }
}

#[test]
fn format_exactness() {
    let t = sample();
    assert_eq!(encode(&t), "2023-01-05 09:02:07");
}

#[test]
fn format_pads_every_field() {
    let t = LocalTimestamp {
        year: 7,
        month: 3,
        day: 4,
        hour: 5,
        minute: 6,
        second: 8,
        offset_seconds: 0,
    };
    assert_eq!(encode(&t), "0007-03-04 05:06:08");
}

#[test]
fn encode_ignores_offset() {
    let t1 = sample();
    let mut t2 = sample();
    t2.offset_seconds = -7200;
    assert_eq!(encode(&t1), encode(&t2));
    assert_eq!(encode(&t1), encode(&t1));
}

#[test]
fn round_trip_at_same_offset() {
    let t = sample();
    let text = encode(&t);
    let back = decode_at(&text, t.offset_seconds).unwrap();
    assert_eq!(back, t);
}

#[test]
fn round_trip_keeps_date_time_at_other_offset() {
    let t = sample();
    let text = encode(&t);
    let back = decode_at(&text, -18000).unwrap();
    assert_eq!(back.year, t.year);
    assert_eq!(back.month, t.month);
    assert_eq!(back.day, t.day);
    assert_eq!(back.hour, t.hour);
    assert_eq!(back.minute, t.minute);
    assert_eq!(back.second, t.second);
    assert_eq!(back.offset_seconds, -18000);
}

#[test]
fn offset_substitution() {
    let text = "2023-01-05 09:02:07";
    let a = decode_at(text, 3600).unwrap();
    let b = decode_at(text, -28800).unwrap();
    assert_eq!(a.year, b.year);
    assert_eq!(a.month, b.month);
    assert_eq!(a.day, b.day);
    assert_eq!(a.hour, b.hour);
    assert_eq!(a.minute, b.minute);
    assert_eq!(a.second, b.second);
    assert_eq!(a.offset_seconds, 3600);
    assert_eq!(b.offset_seconds, -28800);
}

#[test]
fn strict_parse_accepts_exact_pattern() {
    let t = decode_at("2023-01-05 09:02:07", 0).unwrap();
    assert_eq!(t.year, 2023);
    assert_eq!(t.month, 1);
    assert_eq!(t.day, 5);
    assert_eq!(t.hour, 9);
    assert_eq!(t.minute, 2);
    assert_eq!(t.second, 7);
}

#[test]
fn strict_parse_rejects_unpadded() {
    assert!(decode_at("2023-1-5 9:2:7", 0).is_err());
}

#[test]
fn strict_parse_rejects_wrong_separator() {
    assert!(decode_at("2023-01-05T09:02:07", 0).is_err());
    assert!(decode_at("2023/01/05 09:02:07", 0).is_err());
    assert!(decode_at("2023-01-05 09.02.07", 0).is_err());
}

#[test]
fn strict_parse_rejects_invalid_month() {
    assert!(decode_at("2023-13-01 00:00:00", 0).is_err());
    assert!(decode_at("2023-00-01 00:00:00", 0).is_err());
}

#[test]
fn strict_parse_rejects_invalid_day() {
    assert!(decode_at("2023-01-00 00:00:00", 0).is_err());
    assert!(decode_at("2023-01-32 00:00:00", 0).is_err());
    assert!(decode_at("2023-04-31 00:00:00", 0).is_err());
    assert!(decode_at("2023-02-29 00:00:00", 0).is_err());
}

#[test]
fn strict_parse_accepts_leap_day() {
    let t = decode_at("2024-02-29 00:00:00", 0).unwrap();
    assert_eq!(t.day, 29);
    assert!(decode_at("2024-02-30 00:00:00", 0).is_err());
    assert!(decode_at("1900-02-29 00:00:00", 0).is_err());
    assert!(decode_at("2000-02-29 12:00:00", 0).is_ok());
}

#[test]
fn strict_parse_rejects_invalid_time() {
    assert!(decode_at("2023-01-05 24:00:00", 0).is_err());
    assert!(decode_at("2023-01-05 09:60:00", 0).is_err());
    assert!(decode_at("2023-01-05 09:02:60", 0).is_err());
}

#[test]
fn strict_parse_rejects_empty() {
    assert!(decode_at("", 0).is_err());
}

#[test]
fn strict_parse_rejects_garbage_around_pattern() {
    assert!(decode_at("2023-01-05 09:02:07 ", 0).is_err());
    assert!(decode_at(" 2023-01-05 09:02:07", 0).is_err());
    assert!(decode_at("2023-01-05 09:02:07x", 0).is_err());
    assert!(decode_at("2023-01-05 09:02", 0).is_err());
    assert!(decode_at("x023-01-05 09:02:07", 0).is_err());
}

#[test]
fn malformed_error_carries_description() {
    let e = decode_at("not a timestamp at all", 0).unwrap_err();
    assert!(!e.message.is_empty());
}

#[test]
fn boundary_timestamps_round_trip() {
    let low = LocalTimestamp {
        year: 0,
        month: 1,
        day: 1,
        hour: 0,
        minute: 0,
        second: 0,
        offset_seconds: 0,
    };
    assert_eq!(encode(&low), "0000-01-01 00:00:00");
    assert_eq!(decode_at("0000-01-01 00:00:00", 0).unwrap(), low);
    let high = LocalTimestamp {
        year: 9999,
        month: 12,
        day: 31,
        hour: 23,
        minute: 59,
        second: 59,
        offset_seconds: 0,
    };
    assert_eq!(encode(&high), "9999-12-31 23:59:59");
    assert_eq!(decode_at("9999-12-31 23:59:59", 0).unwrap(), high);
}

#[test]
fn decode_reads_current_offset() {
    let t = decode("2023-06-15 12:00:00").unwrap();
    assert_eq!(t.year, 2023);
    assert_eq!(t.month, 6);
    assert_eq!(t.day, 15);
    assert_eq!(t.hour, 12);
    assert_eq!(t.minute, 0);
    assert_eq!(t.second, 0);
    assert!(t.offset_seconds > -86400 && t.offset_seconds < 86400);
    assert!(decode("2023-6-15 12:00:00").is_err());
}

#[test]
fn calendar_helpers_exact_values() {
    assert!(is_leap_year(2024));
    assert!(is_leap_year(2000));
    assert!(!is_leap_year(1900));
    assert!(!is_leap_year(2023));
    assert_eq!(days_in_month(2023, 1), 31);
    assert_eq!(days_in_month(2023, 2), 28);
    assert_eq!(days_in_month(2024, 2), 29);
    assert_eq!(days_in_month(2023, 4), 30);
    assert_eq!(days_in_month(2023, 12), 31);
}
