//! The codec's laws: what holds of encoding and decoding together, proved
//! over the same spec functions that the two operations' contracts use.

use vstd::prelude::*;

use crate::codec::{
    decode_spec, digit_char, digit_val, encode_spec, is_digit, parse_ok, text_shape_ok,
    fields_in_range, year_of, month_of, day_of, hour_of, minute_of, second_of,
};
use crate::timestamp::LocalTimestamp;

verus! {

/// The digit characters carry their values: rendering a value between 0 and
/// 9 yields a digit that reads back as the same value.
proof fn lemma_digit_roundtrip(d: int)
    requires
        0 <= d <= 9,
    ensures
        is_digit(digit_char(d)),
        digit_val(digit_char(d)) == d,
{
}

/// A number of at most two digits is recovered from its tens and ones.
proof fn lemma_two_digit_value(n: int)
    requires
        0 <= n <= 99,
    ensures
        (n / 10) * 10 + n % 10 == n,
{
}

/// A number of at most four digits is recovered from its four digits.
proof fn lemma_four_digit_value(n: int)
    requires
        0 <= n <= 9999,
    ensures
        (n / 1000) * 1000 + ((n / 100) % 10) * 100 + ((n / 10) % 10) * 10 + n % 10 == n,
{
}

/// Round trip: decoding the text that encoding a well-formed timestamp
/// produced succeeds at every current offset, restores the calendar date
/// and time of day exactly, and carries the offset in effect at decode
/// time. When that offset equals the timestamp's own, the decoded value is
/// the original timestamp itself.
pub proof fn lemma_round_trip(t: LocalTimestamp, offset_seconds: int)
    requires
        t.well_formed(),
        -86400 < offset_seconds < 86400,
    ensures
        decode_spec(encode_spec(t), offset_seconds) is Some,
        decode_spec(encode_spec(t), offset_seconds)->Some_0.same_date_time(t),
        decode_spec(encode_spec(t), offset_seconds)->Some_0.offset_seconds == offset_seconds,
        offset_seconds == t.offset_seconds ==> decode_spec(encode_spec(t), offset_seconds)
            == Some(t),
{
    let s = encode_spec(t);
    let y = t.year as int;
    let mo = t.month as int;
    let d = t.day as int;
    let h = t.hour as int;
    let mi = t.minute as int;
    let se = t.second as int;
    assert(s =~= seq![
        digit_char(y / 1000),
        digit_char((y / 100) % 10),
        digit_char((y / 10) % 10),
        digit_char(y % 10),
        '-',
        digit_char(mo / 10),
        digit_char(mo % 10),
        '-',
        digit_char(d / 10),
        digit_char(d % 10),
        ' ',
        digit_char(h / 10),
        digit_char(h % 10),
        ':',
        digit_char(mi / 10),
        digit_char(mi % 10),
        ':',
        digit_char(se / 10),
        digit_char(se % 10),
    ]);
    lemma_digit_roundtrip(y / 1000);
    lemma_digit_roundtrip((y / 100) % 10);
    lemma_digit_roundtrip((y / 10) % 10);
    lemma_digit_roundtrip(y % 10);
    lemma_digit_roundtrip(mo / 10);
    lemma_digit_roundtrip(mo % 10);
    lemma_digit_roundtrip(d / 10);
    lemma_digit_roundtrip(d % 10);
    lemma_digit_roundtrip(h / 10);
    lemma_digit_roundtrip(h % 10);
    lemma_digit_roundtrip(mi / 10);
    lemma_digit_roundtrip(mi % 10);
    lemma_digit_roundtrip(se / 10);
    lemma_digit_roundtrip(se % 10);
    assert(text_shape_ok(s));
    lemma_four_digit_value(y);
    lemma_two_digit_value(mo);
    lemma_two_digit_value(d);
    lemma_two_digit_value(h);
    lemma_two_digit_value(mi);
    lemma_two_digit_value(se);
    assert(year_of(s) == y);
    assert(month_of(s) == mo);
    assert(day_of(s) == d);
    assert(hour_of(s) == h);
    assert(minute_of(s) == mi);
    assert(second_of(s) == se);
    assert(fields_in_range(s));
}

/// Offset substitution: two decodings of the same valid text at two
/// moments with two different current offsets agree in every calendar
/// field, and each carries the offset in effect at its own call.
pub proof fn lemma_offset_substitution(s: Seq<char>, o1: int, o2: int)
    requires
        parse_ok(s),
        -86400 < o1 < 86400,
        -86400 < o2 < 86400,
    ensures
        decode_spec(s, o1) is Some,
        decode_spec(s, o2) is Some,
        decode_spec(s, o1)->Some_0.same_date_time(decode_spec(s, o2)->Some_0),
        decode_spec(s, o1)->Some_0.offset_seconds == o1,
        decode_spec(s, o2)->Some_0.offset_seconds == o2,
{
}

/// Encoding ignores the offset: two timestamps that agree in calendar date
/// and time of day, whatever their offsets, encode to identical text.
pub proof fn lemma_encode_ignores_offset(t1: LocalTimestamp, t2: LocalTimestamp)
    requires
        t1.same_date_time(t2),
    ensures
        encode_spec(t1) == encode_spec(t2),
{
    assert(encode_spec(t1) =~= encode_spec(t2));
}

} // verus!
