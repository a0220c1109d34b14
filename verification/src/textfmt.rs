//! Decimal and timestamp text, character by character.
//!
//! Outgoing headers carry an ISO-8601 timestamp and socket addresses carry a
//! decimal port number. The functions here produce that text; the exact
//! character sequence is pinned by the specifications.

use vstd::prelude::*;

verus! {

/// The character of a single decimal digit.
pub open spec fn digit_char(d: nat) -> char
    recommends
        d < 10,
{
    ((48 + d) as u8) as char
}

/// The decimal form of a number, most significant digit first, with no
/// leading zeros (a single `0` for zero).
pub open spec fn dec_chars(n: nat) -> Seq<char>
    decreases n,
{
    if n < 10 {
        seq![digit_char(n)]
    } else {
        dec_chars((n / 10) as nat).push(digit_char((n % 10) as nat))
    }
}

/// The decimal form of a number, left-padded with `0` to two digits.
pub open spec fn pad2_chars(n: nat) -> Seq<char> {
    if n < 10 {
        seq![digit_char(0)] + dec_chars(n)
    } else {
        dec_chars(n)
    }
}

/// The decimal form of a number, left-padded with `0` to four digits.
pub open spec fn pad4_chars(n: nat) -> Seq<char> {
    if n < 10 {
        seq![digit_char(0), digit_char(0), digit_char(0)] + dec_chars(n)
    } else if n < 100 {
        seq![digit_char(0), digit_char(0)] + dec_chars(n)
    } else if n < 1000 {
        seq![digit_char(0)] + dec_chars(n)
    } else {
        dec_chars(n)
    }
}

/// A one-character string slice for a decimal digit.
fn digit_str(d: u8) -> (r: &'static str)
    requires
        d < 10,
    ensures
        r@ == seq![digit_char(d as nat)],
{
    let r: &'static str = match d {
        0 => "0",
        1 => "1",
        2 => "2",
        3 => "3",
        4 => "4",
        5 => "5",
        6 => "6",
        7 => "7",
        8 => "8",
        _ => "9",
    };
    proof {
        reveal_strlit("0");
        reveal_strlit("1");
        reveal_strlit("2");
        reveal_strlit("3");
        reveal_strlit("4");
        reveal_strlit("5");
        reveal_strlit("6");
        reveal_strlit("7");
        reveal_strlit("8");
        reveal_strlit("9");
        assert(r@ =~= seq![digit_char(d as nat)]);
    }
    r
}

/// Append the decimal form of `n` to `out`.
pub fn push_dec_u64(out: &mut String, n: u64)
    ensures
        final(out)@ == old(out)@ + dec_chars(n as nat),
    decreases n,
{
    if n >= 10 {
        push_dec_u64(out, n / 10);
    }
    out.append(digit_str((n % 10) as u8));
    proof {
        assert(out@ =~= old(out)@ + dec_chars(n as nat));
    }
}

/// Append the decimal form of `n`, left-padded with `0` to two digits.
pub fn push_pad2_u64(out: &mut String, n: u64)
    ensures
        final(out)@ == old(out)@ + pad2_chars(n as nat),
{
    if n < 10 {
        out.append(digit_str(0));
    }
    push_dec_u64(out, n);
    proof {
        assert(out@ =~= old(out)@ + pad2_chars(n as nat));
    }
}

/// Append the decimal form of `n`, left-padded with `0` to four digits.
pub fn push_pad4_u64(out: &mut String, n: u64)
    ensures
        final(out)@ == old(out)@ + pad4_chars(n as nat),
{
    if n < 10 {
        out.append(digit_str(0));
        out.append(digit_str(0));
        out.append(digit_str(0));
    } else if n < 100 {
        out.append(digit_str(0));
        out.append(digit_str(0));
    } else if n < 1000 {
        out.append(digit_str(0));
    }
    push_dec_u64(out, n);
    proof {
        assert(out@ =~= old(out)@ + pad4_chars(n as nat));
    }
}

/// The decimal form of `n` as a string.
pub fn u64_to_dec_string(n: u64) -> (r: String)
    ensures
        r@ == dec_chars(n as nat),
{
    let mut out = String::new();
    push_dec_u64(&mut out, n);
    proof {
        assert(out@ =~= dec_chars(n as nat));
    }
    out
}

/// Whether a string holds exactly the given text.
pub fn string_eq_str(a: &String, b: &str) -> (r: bool)
    ensures
        r == (a@ == b@),
{
    let other: String = b.to_owned();
    *a == other
}

/// The last second that the timestamp format below represents:
/// 9999-12-31T23:59:59Z. Later instants saturate to it.
pub const MAX_TIMESTAMP_SECONDS: u64 = 253402300799;

/// Days in the 400-year Gregorian cycle.
pub const DAYS_PER_ERA: u64 = 146097;

/// Difference that subtracts to zero instead of wrapping. The civil-date
/// computation below only meets the zero branch on inputs outside its
/// intended range, but stating it this way keeps every spec total.
pub open spec fn monus(a: nat, b: nat) -> nat {
    if a >= b {
        (a - b) as nat
    } else {
        0
    }
}

/// The day index inside the 400-year cycle for a day count since the epoch
/// shifted to 0000-03-01.
pub open spec fn day_of_era_of(day: nat) -> nat {
    ((day + 719468) % 146097) as nat
}

/// The year index inside the 400-year cycle.
pub open spec fn year_of_era_of(day: nat) -> nat {
    let doe = day_of_era_of(day);
    (monus(doe + doe / 36524, doe / 1460 + doe / 146096) / 365) as nat
}

/// The day index inside the (March-first) year.
pub open spec fn day_of_year_of(day: nat) -> nat {
    let doe = day_of_era_of(day);
    let yoe = year_of_era_of(day);
    monus(doe, (365 * yoe + yoe / 4 - yoe / 100) as nat)
}

/// The month index counted from March (0 = March .. 11 = February).
pub open spec fn month_from_march_of(day: nat) -> nat {
    ((5 * day_of_year_of(day) + 2) / 153) as nat
}

/// The civil month (1..=12) of a day count since 1970-01-01.
pub open spec fn civil_month_of(day: nat) -> nat {
    let mp = month_from_march_of(day);
    if mp < 10 {
        (mp + 3) as nat
    } else {
        (mp - 9) as nat
    }
}

/// The civil day of month (1..=31) of a day count since 1970-01-01.
pub open spec fn civil_day_of(day: nat) -> nat {
    let doy = day_of_year_of(day);
    let mp = month_from_march_of(day);
    (monus(doy, (153 * mp + 2) / 5) + 1) as nat
}

/// The civil year of a day count since 1970-01-01.
pub open spec fn civil_year_of(day: nat) -> nat {
    let era = ((day + 719468) / 146097) as nat;
    let y = (year_of_era_of(day) + era * 400) as nat;
    if civil_month_of(day) <= 2 {
        (y + 1) as nat
    } else {
        y
    }
}

/// The UTC timestamp `YYYY-MM-DDTHH:MM:SSZ` of a count of seconds since the
/// Unix epoch, saturated at the end of the year 9999.
pub open spec fn iso8601_chars(secs: nat) -> Seq<char> {
    let s = if secs > MAX_TIMESTAMP_SECONDS as nat {
        MAX_TIMESTAMP_SECONDS as nat
    } else {
        secs
    };
    let day = (s / 86400) as nat;
    let rem = (s % 86400) as nat;
    pad4_chars(civil_year_of(day)) + seq!['-'] + pad2_chars(civil_month_of(day)) + seq!['-']
        + pad2_chars(civil_day_of(day)) + seq!['T'] + pad2_chars((rem / 3600) as nat) + seq![':']
        + pad2_chars(((rem % 3600) / 60) as nat) + seq![':'] + pad2_chars((rem % 60) as nat)
        + seq!['Z']
}

/// The UTC timestamp of a count of seconds since the Unix epoch, in the
/// form `YYYY-MM-DDTHH:MM:SSZ`, saturated at the end of the year 9999.
#[verifier::rlimit(60)]
pub fn iso8601_utc(secs: u64) -> (r: String)
    ensures
        r@ == iso8601_chars(secs as nat),
{
    let s = if secs > MAX_TIMESTAMP_SECONDS {
        MAX_TIMESTAMP_SECONDS
    } else {
        secs
    };
    let day = s / 86400;
    let rem = s % 86400;
    let shifted = day + 719468;
    let era = shifted / DAYS_PER_ERA;
    let doe = shifted % DAYS_PER_ERA;
    let a = doe + doe / 36524;
    let b = doe / 1460 + doe / 146096;
    let yoe = (if a >= b { a - b } else { 0 }) / 365;
    let year_start = 365 * yoe + yoe / 4 - yoe / 100;
    let doy = if doe >= year_start { doe - year_start } else { 0 };
    let mp = (5 * doy + 2) / 153;
    let month_start = (153 * mp + 2) / 5;
    let d = (if doy >= month_start { doy - month_start } else { 0 }) + 1;
    let m = if mp < 10 { mp + 3 } else { mp - 9 };
    let y = yoe + era * 400 + (if m <= 2 { 1 } else { 0 });
    let hour = rem / 3600;
    let minute = (rem % 3600) / 60;
    let second = rem % 60;
    proof {
        assert(day_of_era_of(day as nat) == doe);
        assert(year_of_era_of(day as nat) == yoe);
        assert(day_of_year_of(day as nat) == doy);
        assert(month_from_march_of(day as nat) == mp);
        assert(civil_month_of(day as nat) == m);
        assert(civil_day_of(day as nat) == d);
        assert(civil_year_of(day as nat) == y);
    }
    let mut out = String::new();
    push_pad4_u64(&mut out, y);
    out.append("-");
    push_pad2_u64(&mut out, m);
    out.append("-");
    push_pad2_u64(&mut out, d);
    out.append("T");
    push_pad2_u64(&mut out, hour);
    out.append(":");
    push_pad2_u64(&mut out, minute);
    out.append(":");
    push_pad2_u64(&mut out, second);
    out.append("Z");
    proof {
        reveal_strlit("-");
        reveal_strlit("T");
        reveal_strlit(":");
        reveal_strlit("Z");
        assert(out@ =~= iso8601_chars(secs as nat));
    }
    out
}

} // verus!
