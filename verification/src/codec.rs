//! The timestamp codec: rendering a `LocalTimestamp` as the fixed pattern
//! `YYYY-MM-DD hh:mm:ss`, and strict parsing of that pattern back.

use vstd::prelude::*;

use crate::timestamp::{days_in_month, spec_days_in_month, LocalTimestamp};

verus! {

/// `c` is an ASCII decimal digit.
pub open spec fn is_digit(c: char) -> bool {
    48 <= c as u32 <= 57
}

/// Numeric value of an ASCII decimal digit.
pub open spec fn digit_val(c: char) -> int {
    c as u32 - 48
}

/// The ASCII digit character for a value between 0 and 9.
pub open spec fn digit_char(d: int) -> char {
    if d == 0 {
        '0'
    } else if d == 1 {
        '1'
    } else if d == 2 {
        '2'
    } else if d == 3 {
        '3'
    } else if d == 4 {
        '4'
    } else if d == 5 {
        '5'
    } else if d == 6 {
        '6'
    } else if d == 7 {
        '7'
    } else if d == 8 {
        '8'
    } else {
        '9'
    }
}

/// `n` rendered as two zero-padded decimal digits.
pub open spec fn two_digits(n: int) -> Seq<char> {
    seq![digit_char(n / 10), digit_char(n % 10)]
}

/// `n` rendered as four zero-padded decimal digits.
pub open spec fn four_digits(n: int) -> Seq<char> {
    seq![
        digit_char(n / 1000),
        digit_char((n / 100) % 10),
        digit_char((n / 10) % 10),
        digit_char(n % 10),
    ]
}

/// The text that encoding produces: the fixed pattern `YYYY-MM-DD hh:mm:ss`,
/// zero-padded, space-separated, with no offset and no sub-second part.
pub open spec fn encode_spec(t: LocalTimestamp) -> Seq<char> {
    four_digits(t.year as int) + seq!['-'] + two_digits(t.month as int) + seq!['-'] + two_digits(
        t.day as int,
    ) + seq![' '] + two_digits(t.hour as int) + seq![':'] + two_digits(t.minute as int) + seq![':']
        + two_digits(t.second as int)
}

/// `s` has the exact shape of the pattern: nineteen characters, digits in
/// the numeric fields, `-`, ` ` and `:` as the only separators.
pub open spec fn text_shape_ok(s: Seq<char>) -> bool {
    &&& s.len() == 19
    &&& is_digit(s[0]) && is_digit(s[1]) && is_digit(s[2]) && is_digit(s[3])
    &&& s[4] == '-'
    &&& is_digit(s[5]) && is_digit(s[6])
    &&& s[7] == '-'
    &&& is_digit(s[8]) && is_digit(s[9])
    &&& s[10] == ' '
    &&& is_digit(s[11]) && is_digit(s[12])
    &&& s[13] == ':'
    &&& is_digit(s[14]) && is_digit(s[15])
    &&& s[16] == ':'
    &&& is_digit(s[17]) && is_digit(s[18])
}

/// The year field of a text with the pattern's shape.
pub open spec fn year_of(s: Seq<char>) -> int {
    digit_val(s[0]) * 1000 + digit_val(s[1]) * 100 + digit_val(s[2]) * 10 + digit_val(s[3])
}

/// The month field of a text with the pattern's shape.
pub open spec fn month_of(s: Seq<char>) -> int {
    digit_val(s[5]) * 10 + digit_val(s[6])
}

/// The day field of a text with the pattern's shape.
pub open spec fn day_of(s: Seq<char>) -> int {
    digit_val(s[8]) * 10 + digit_val(s[9])
}

/// The hour field of a text with the pattern's shape.
pub open spec fn hour_of(s: Seq<char>) -> int {
    digit_val(s[11]) * 10 + digit_val(s[12])
}

/// The minute field of a text with the pattern's shape.
pub open spec fn minute_of(s: Seq<char>) -> int {
    digit_val(s[14]) * 10 + digit_val(s[15])
}

/// The second field of a text with the pattern's shape.
pub open spec fn second_of(s: Seq<char>) -> int {
    digit_val(s[17]) * 10 + digit_val(s[18])
}

/// The numeric fields of a well-shaped text name a real calendar date and a
/// time of day.
pub open spec fn fields_in_range(s: Seq<char>) -> bool {
    &&& 1 <= month_of(s) <= 12
    &&& 1 <= day_of(s) <= spec_days_in_month(year_of(s), month_of(s))
    &&& hour_of(s) <= 23
    &&& minute_of(s) <= 59
    &&& second_of(s) <= 59
}

/// Decoding `s` succeeds: the text matches the pattern exactly and its
/// fields are in range.
pub open spec fn parse_ok(s: Seq<char>) -> bool {
    text_shape_ok(s) && fields_in_range(s)
}

/// What decoding `s` yields when the current local offset is
/// `offset_seconds`: the parsed calendar date and time of day, paired with
/// that offset — never with an offset taken from the text, which carries
/// none.
pub open spec fn decode_spec(s: Seq<char>, offset_seconds: int) -> Option<LocalTimestamp> {
    if parse_ok(s) {
        Some(
            LocalTimestamp {
                year: year_of(s) as u32,
                month: month_of(s) as u32,
                day: day_of(s) as u32,
                hour: hour_of(s) as u32,
                minute: minute_of(s) as u32,
                second: second_of(s) as u32,
                offset_seconds: offset_seconds as i32,
            },
        )
    } else {
        None
    }
}

/// Appends the ASCII digit for `d` to `out`.
fn push_digit(out: &mut String, d: u32)
    requires
        d <= 9,
    ensures
        final(out)@ == old(out)@ + seq![digit_char(d as int)],
{
    if d == 0 {
        proof {
            reveal_strlit("0");
        }
        out.append("0");
    } else if d == 1 {
        proof {
            reveal_strlit("1");
        }
        out.append("1");
    } else if d == 2 {
        proof {
            reveal_strlit("2");
        }
        out.append("2");
    } else if d == 3 {
        proof {
            reveal_strlit("3");
        }
        out.append("3");
    } else if d == 4 {
        proof {
            reveal_strlit("4");
        }
        out.append("4");
    } else if d == 5 {
        proof {
            reveal_strlit("5");
        }
        out.append("5");
    } else if d == 6 {
        proof {
            reveal_strlit("6");
        }
        out.append("6");
    } else if d == 7 {
        proof {
            reveal_strlit("7");
        }
        out.append("7");
    } else if d == 8 {
        proof {
            reveal_strlit("8");
        }
        out.append("8");
    } else {
        proof {
            reveal_strlit("9");
        }
        out.append("9");
    }
    proof {
        assert(out@ =~= old(out)@ + seq![digit_char(d as int)]);
    }
}

/// Renders `t` with the fixed pattern `YYYY-MM-DD hh:mm:ss`.
///
/// Total: formatting a well-formed timestamp cannot fail. The offset is not
/// part of the text.
#[verifier::rlimit(50)]
pub fn encode(t: &LocalTimestamp) -> (r: String)
    requires
        t.well_formed(),
    ensures
        r@ == encode_spec(*t),
{
    let mut out = String::new();
    push_digit(&mut out, t.year / 1000);
    push_digit(&mut out, (t.year / 100) % 10);
    push_digit(&mut out, (t.year / 10) % 10);
    push_digit(&mut out, t.year % 10);
    proof {
        reveal_strlit("-");
        reveal_strlit(" ");
        reveal_strlit(":");
    }
    out.append("-");
    push_digit(&mut out, t.month / 10);
    push_digit(&mut out, t.month % 10);
    out.append("-");
    push_digit(&mut out, t.day / 10);
    push_digit(&mut out, t.day % 10);
    out.append(" ");
    push_digit(&mut out, t.hour / 10);
    push_digit(&mut out, t.hour % 10);
    out.append(":");
    push_digit(&mut out, t.minute / 10);
    push_digit(&mut out, t.minute % 10);
    out.append(":");
    push_digit(&mut out, t.second / 10);
    push_digit(&mut out, t.second % 10);
    proof {
        assert(out@ =~= encode_spec(*t));
    }
    out
}

/// The codec's single error: the input text does not match the fixed
/// pattern. Carries a human-readable description of the parse failure.
#[derive(Debug)]
pub struct MalformedTimestamp {
    pub message: String,
}

/// Builds a `MalformedTimestamp` carrying `message`.
fn malformed(message: &str) -> (r: MalformedTimestamp)
    ensures
        r.message@ == message@,
{
    MalformedTimestamp { message: String::from_str(message) }
}

/// Reads the character at position `i` of `s` as a decimal digit.
fn digit_at(s: &str, i: usize) -> (r: Option<u32>)
    requires
        i < s@.len(),
    ensures
        match r {
            Some(d) => is_digit(s@[i as int]) && d == digit_val(s@[i as int]),
            None => !is_digit(s@[i as int]),
        },
{
    let c = s.get_char(i);
    let u = c as u32;
    if 48 <= u && u <= 57 {
        Some(u - 48)
    } else {
        None
    }
}

/// Reads the two characters at positions `i` and `i + 1` of `s` as a
/// zero-padded two-digit number.
fn two_digit_field(s: &str, i: usize) -> (r: Option<u32>)
    requires
        s@.len() == 19,
        i + 1 < 19,
    ensures
        match r {
            Some(v) => is_digit(s@[i as int]) && is_digit(s@[i as int + 1]) && v == digit_val(
                s@[i as int],
            ) * 10 + digit_val(s@[i as int + 1]),
            None => !(is_digit(s@[i as int]) && is_digit(s@[i as int + 1])),
        },
{
    let hi = match digit_at(s, i) {
        Some(d) => d,
        None => {
            return None;
        },
    };
    let lo = match digit_at(s, i + 1) {
        Some(d) => d,
        None => {
            return None;
        },
    };
    Some(hi * 10 + lo)
}

/// Parses `s` strictly against the fixed pattern `YYYY-MM-DD hh:mm:ss` and
/// pairs the parsed calendar date and time of day with `offset_seconds`.
///
/// Succeeds exactly when the text matches the pattern — right widths, right
/// separators, no leading or trailing garbage — and its fields name a real
/// calendar date and time of day.
pub fn decode_at(s: &str, offset_seconds: i32) -> (r: Result<LocalTimestamp, MalformedTimestamp>)
    requires
        -86400 < offset_seconds < 86400,
    ensures
        match decode_spec(s@, offset_seconds as int) {
            Some(t) => r == Ok::<LocalTimestamp, MalformedTimestamp>(t),
            None => r is Err,
        },
{
    if s.unicode_len() != 19 {
        return Err(malformed("expected exactly 19 characters in the form YYYY-MM-DD hh:mm:ss"));
    }
    if !(s.get_char(4) == '-' && s.get_char(7) == '-' && s.get_char(10) == ' ' && s.get_char(13)
        == ':' && s.get_char(16) == ':') {
        return Err(malformed("expected the separators of the form YYYY-MM-DD hh:mm:ss"));
    }
    let year_hi = match two_digit_field(s, 0) {
        Some(v) => v,
        None => {
            return Err(malformed("year is not four decimal digits"));
        },
    };
    let year_lo = match two_digit_field(s, 2) {
        Some(v) => v,
        None => {
            return Err(malformed("year is not four decimal digits"));
        },
    };
    let year = year_hi * 100 + year_lo;
    let month = match two_digit_field(s, 5) {
        Some(v) => v,
        None => {
            return Err(malformed("month is not two decimal digits"));
        },
    };
    let day = match two_digit_field(s, 8) {
        Some(v) => v,
        None => {
            return Err(malformed("day is not two decimal digits"));
        },
    };
    let hour = match two_digit_field(s, 11) {
        Some(v) => v,
        None => {
            return Err(malformed("hour is not two decimal digits"));
        },
    };
    let minute = match two_digit_field(s, 14) {
        Some(v) => v,
        None => {
            return Err(malformed("minute is not two decimal digits"));
        },
    };
    let second = match two_digit_field(s, 17) {
        Some(v) => v,
        None => {
            return Err(malformed("second is not two decimal digits"));
        },
    };
    if month < 1 || month > 12 {
        return Err(malformed("month out of range"));
    }
    if day < 1 || day > days_in_month(year, month) {
        return Err(malformed("day out of range for the month"));
    }
    if hour > 23 {
        return Err(malformed("hour out of range"));
    }
    if minute > 59 {
        return Err(malformed("minute out of range"));
    }
    if second > 59 {
        return Err(malformed("second out of range"));
    }
    let t = LocalTimestamp { year, month, day, hour, minute, second, offset_seconds };
    proof {
        assert(parse_ok(s@));
        assert(decode_spec(s@, offset_seconds as int) == Some(t));
    }
    Ok(t)
}

/// Parses `s` strictly against the fixed pattern and pairs the parsed
/// calendar date and time of day with the host's current local UTC offset,
/// read at the moment of the call.
///
/// The text carries no offset, so the decoded offset is whatever is in
/// effect when this runs; the calendar fields come from the text alone.
pub fn decode(s: &str) -> (r: Result<LocalTimestamp, MalformedTimestamp>)
    ensures
        r is Ok <==> parse_ok(s@),
        r matches Ok(t) ==> -86400 < t.offset_seconds < 86400 && decode_spec(
            s@,
            t.offset_seconds as int,
        ) == Some(t),
{
    let offset_seconds = crate::clock::current_local_offset_seconds();
    decode_at(s, offset_seconds)
}

} // verus!
