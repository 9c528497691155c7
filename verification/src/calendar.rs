//! Wall-clock projection: Unix timestamps and their UTC rendering.
//!
//! The projection engine turns a DAA-score distance into a Unix
//! timestamp and renders it as a UTC date-time string of the fixed shape
//! `YYYY-MM-DD HH:MM:SS UTC` (proleptic Gregorian calendar, years 0000
//! through 9999).  The rendering is verified to round-trip: parsing the
//! produced string gives back exactly the timestamp it was made from.

use vstd::prelude::*;
use vstd::arithmetic::div_mod::{
    lemma_fundamental_div_mod, lemma_fundamental_div_mod_converse_div,
    lemma_fundamental_div_mod_converse_mod, lemma_mod_division_less_than_divisor,
};
use vstd::string::StrSliceExecFns;
use crate::text::{digit_char, digit_val, is_digit, digit_of, push_char};

verus! {

/// Seconds from 0000-01-01 00:00:00 UTC to the Unix epoch.
pub const EPOCH_OFFSET_SECONDS: i64 = 62167219200;

/// The earliest timestamp the renderer covers: 0000-01-01 00:00:00 UTC.
pub const MIN_FORMATTABLE_TS: i64 = -62167219200;

/// The latest timestamp the renderer covers: 9999-12-31 23:59:59 UTC.
pub const MAX_FORMATTABLE_TS: i64 = 253402300799;

/// `y` is a leap year of the proleptic Gregorian calendar.
pub open spec fn is_leap_year(y: int) -> bool {
    y % 4 == 0 && (y % 100 != 0 || y % 400 == 0)
}

/// How many days year `y` has.
pub open spec fn days_in_year(y: int) -> int {
    if is_leap_year(y) {
        366
    } else {
        365
    }
}

/// How many days lie before year `y`, counted from 0000-01-01.
pub open spec fn days_before_year(y: int) -> int {
    365 * y + (y + 3) / 4 - (y + 99) / 100 + (y + 399) / 400
}

/// How many days month `m` of year `y` has (`m` between 1 and 12).
pub open spec fn days_in_month(y: int, m: int) -> int {
    if m == 2 {
        if is_leap_year(y) {
            29
        } else {
            28
        }
    } else if m == 4 || m == 6 || m == 9 || m == 11 {
        30
    } else {
        31
    }
}

/// How many days of year `y` lie before month `m`.
pub open spec fn days_before_month(y: int, m: int) -> int
    decreases m,
{
    if m <= 1 {
        0
    } else {
        days_before_month(y, m - 1) + days_in_month(y, m - 1)
    }
}

/// A calendar date and time of day, all fields plain numbers.
#[derive(Clone, Copy, Debug, PartialEq, Eq, Structural)]
pub struct CivilTime {
    pub year: u64,
    pub month: u64,
    pub day: u64,
    pub hour: u64,
    pub minute: u64,
    pub second: u64,
}

/// The fields of `c` name a real date in years 0000 through 9999 and a
/// real time of day.
pub open spec fn civil_ok(c: CivilTime) -> bool {
    &&& 0 <= c.year <= 9999
    &&& 1 <= c.month <= 12
    &&& 1 <= c.day <= days_in_month(c.year as int, c.month as int)
    &&& 0 <= c.hour < 24
    &&& 0 <= c.minute < 60
    &&& 0 <= c.second < 60
}

/// Seconds from 0000-01-01 00:00:00 to the moment `c` names.
pub open spec fn civil_total_seconds(c: CivilTime) -> int {
    (days_before_year(c.year as int) + days_before_month(c.year as int, c.month as int) + (
    c.day as int - 1)) * 86400 + c.hour as int * 3600 + c.minute as int * 60 + c.second as int
}

/// Division steps used when one year is added: `(y + d) / d` is one more
/// than `y / d`, and `(y + d - 1) / d` rounds up unless `d` divides `y`.
proof fn lemma_div_shift(y: int, d: int)
    requires
        0 <= y,
        1 <= d,
    ensures
        (y + d) / d == y / d + 1,
        (y + d - 1) / d == y / d + (if y % d == 0 { 0int } else { 1int }),
{
    let q = y / d;
    let r = y % d;
    lemma_fundamental_div_mod(y, d);
    lemma_mod_division_less_than_divisor(y, d);
    assert((q + 1) * d == q * d + d) by (nonlinear_arith);
    assert(d * q == q * d) by (nonlinear_arith);
    lemma_fundamental_div_mod_converse_div(y + d, d, q + 1, r);
    if r == 0 {
        lemma_fundamental_div_mod_converse_div(y + d - 1, d, q, d - 1);
    } else {
        lemma_fundamental_div_mod_converse_div(y + d - 1, d, q + 1, r - 1);
    }
}

/// `a` divides `y` whenever `a * b` divides `y`.
proof fn lemma_mod_factor(y: int, a: int, b: int)
    requires
        0 <= y,
        1 <= a,
        1 <= b,
        y % (a * b) == 0,
    ensures
        y % a == 0,
{
    let ab = a * b;
    assert(a * b >= 1) by (nonlinear_arith)
        requires
            a >= 1,
            b >= 1,
    ;
    lemma_fundamental_div_mod(y, ab);
    assert(y == (b * (y / ab)) * a) by (nonlinear_arith)
        requires
            y == a * b * (y / ab),
    ;
    lemma_fundamental_div_mod_converse_mod(y, a, b * (y / ab), 0);
}

/// Counting one more year adds exactly that year's length.
pub proof fn lemma_days_before_year_succ(y: int)
    requires
        0 <= y,
    ensures
        days_before_year(y + 1) == days_before_year(y) + days_in_year(y),
{
    lemma_div_shift(y, 4);
    lemma_div_shift(y, 100);
    lemma_div_shift(y, 400);
    if y % 400 == 0 {
        assert(400 == 100 * 4);
        lemma_mod_factor(y, 100, 4);
    }
    if y % 100 == 0 {
        assert(100 == 4 * 25);
        lemma_mod_factor(y, 4, 25);
    }
}

/// The months of year `y` sum to that year's length.
pub proof fn lemma_months_sum(y: int)
    ensures
        days_before_month(y, 13) == days_in_year(y),
{
    reveal_with_fuel(days_before_month, 13);
}

/// Whether year `y` is a leap year.
pub fn leap_year(y: u64) -> (r: bool)
    ensures
        r == is_leap_year(y as int),
{
    y % 4 == 0 && (y % 100 != 0 || y % 400 == 0)
}

/// The number of days of year `y`.
pub fn year_length(y: u64) -> (r: u64)
    ensures
        r == days_in_year(y as int),
{
    if leap_year(y) {
        366
    } else {
        365
    }
}

/// The number of days of month `m` of year `y`.
pub fn month_length(y: u64, m: u64) -> (r: u64)
    requires
        1 <= m <= 12,
    ensures
        r == days_in_month(y as int, m as int),
{
    if m == 2 {
        if leap_year(y) {
            29
        } else {
            28
        }
    } else if m == 4 || m == 6 || m == 9 || m == 11 {
        30
    } else {
        31
    }
}

/// The number of days before year `y`, counted from 0000-01-01.
pub fn days_before_year_number(y: u64) -> (r: u64)
    requires
        y <= 10000,
    ensures
        r == days_before_year(y as int),
        r <= 3652525,
{
    proof {
        lemma_fundamental_div_mod(y as int + 99, 100);
        lemma_mod_division_less_than_divisor(y as int + 99, 100);
        lemma_fundamental_div_mod(y as int + 3, 4);
        lemma_mod_division_less_than_divisor(y as int + 3, 4);
        lemma_fundamental_div_mod(y as int + 399, 400);
        lemma_mod_division_less_than_divisor(y as int + 399, 400);
    }
    365 * y + (y + 3) / 4 + (y + 399) / 400 - (y + 99) / 100
}

/// The number of days of year `y` before month `m`.
pub fn days_before_month_number(y: u64, m: u64) -> (r: u64)
    requires
        1 <= m <= 12,
    ensures
        r == days_before_month(y as int, m as int),
        r <= 341,
{
    let mut k: u64 = 1;
    let mut acc: u64 = 0;
    while k < m
        invariant
            1 <= k <= m <= 12,
            acc == days_before_month(y as int, k as int),
            acc <= 31 * (k - 1),
        decreases m - k,
    {
        acc = acc + month_length(y, k);
        k = k + 1;
    }
    acc
}

/// Splits a timestamp in the covered range into its calendar fields.
/// The fields are a real date and time, and recombining them gives back
/// exactly the moment `ts` names.
pub fn civil_of_timestamp(ts: i64) -> (c: CivilTime)
    requires
        MIN_FORMATTABLE_TS <= ts <= MAX_FORMATTABLE_TS,
    ensures
        civil_ok(c),
        civil_total_seconds(c) == ts + EPOCH_OFFSET_SECONDS,
{
    let total: u64 = (ts + EPOCH_OFFSET_SECONDS) as u64;
    let days: u64 = total / 86400;
    let sod: u64 = total % 86400;
    proof {
        lemma_fundamental_div_mod(total as int, 86400);
        lemma_mod_division_less_than_divisor(total as int, 86400);
        assert(days < 3652425) by {
            if days >= 3652425 {
                assert(total >= 86400 * 3652425) by (nonlinear_arith)
                    requires
                        total as int == 86400 * (days as int) + (sod as int),
                        days >= 3652425,
                        sod >= 0,
                ;
            }
        }
    }
    let hour: u64 = sod / 3600;
    let in_hour: u64 = sod % 3600;
    let minute: u64 = in_hour / 60;
    let second: u64 = in_hour % 60;
    proof {
        lemma_fundamental_div_mod(sod as int, 3600);
        lemma_mod_division_less_than_divisor(sod as int, 3600);
        lemma_fundamental_div_mod(in_hour as int, 60);
        lemma_mod_division_less_than_divisor(in_hour as int, 60);
    }
    let mut year: u64 = 0;
    let mut acc: u64 = 0;
    let mut yl: u64 = year_length(year);
    while acc + yl <= days
        invariant
            0 <= year <= 9999,
            acc == days_before_year(year as int),
            acc <= days < 3652425,
            yl == days_in_year(year as int),
        decreases 10000 - year,
    {
        proof {
            lemma_days_before_year_succ(year as int);
            if year == 9999 {
                assert(days_before_year(10000) == 3652425);
            }
        }
        acc = acc + yl;
        year = year + 1;
        yl = year_length(year);
    }
    let doy: u64 = days - acc;
    let mut month: u64 = 1;
    let mut acc2: u64 = 0;
    let mut ml: u64 = month_length(year, month);
    while acc2 + ml <= doy
        invariant
            1 <= month <= 12,
            acc2 == days_before_month(year as int, month as int),
            acc2 <= doy,
            doy < days_in_year(year as int),
            ml == days_in_month(year as int, month as int),
            0 <= year <= 9999,
        decreases 13 - month,
    {
        proof {
            lemma_months_sum(year as int);
            if month == 12 {
                assert(days_before_month(year as int, 13) == acc2 + ml);
            }
        }
        acc2 = acc2 + ml;
        month = month + 1;
        ml = month_length(year, month);
    }
    let day: u64 = doy - acc2 + 1;
    let c = CivilTime { year, month, day, hour, minute, second };
    proof {
        assert(civil_total_seconds(c) == ts + EPOCH_OFFSET_SECONDS);
    }
    c
}

/// The characters of the decimal digits of `v`, tens first, for `v`
/// below 100.
pub open spec fn two_digit_chars(v: int) -> Seq<char> {
    seq![digit_char(v / 10), digit_char(v % 10)]
}

/// The 23 characters `YYYY-MM-DD HH:MM:SS UTC` for the fields of `c`.
pub open spec fn civil_chars(c: CivilTime) -> Seq<char> {
    two_digit_chars(c.year as int / 100) + two_digit_chars(c.year as int % 100) + seq!['-']
        + two_digit_chars(c.month as int) + seq!['-'] + two_digit_chars(c.day as int) + seq![' ']
        + two_digit_chars(c.hour as int) + seq![':'] + two_digit_chars(c.minute as int)
        + seq![':'] + two_digit_chars(c.second as int) + seq![' ', 'U', 'T', 'C']
}

/// Appends the two decimal digits of `v`, tens first.
fn push_two_digits(s: &mut String, v: u64)
    requires
        v < 100,
    ensures
        final(s)@ == old(s)@ + two_digit_chars(v as int),
{
    push_char(s, (48 + (v / 10)) as u8 as char);
    push_char(s, (48 + (v % 10)) as u8 as char);
    proof {
        assert(s@ =~= old(s)@ + two_digit_chars(v as int));
    }
}

/// Renders the calendar fields of `c` as `YYYY-MM-DD HH:MM:SS UTC`.
pub fn format_civil(c: CivilTime) -> (r: String)
    requires
        civil_ok(c),
    ensures
        r@ == civil_chars(c),
{
    let mut s = String::new();
    push_two_digits(&mut s, c.year / 100);
    push_two_digits(&mut s, c.year % 100);
    push_char(&mut s, '-');
    push_two_digits(&mut s, c.month);
    push_char(&mut s, '-');
    push_two_digits(&mut s, c.day);
    push_char(&mut s, ' ');
    push_two_digits(&mut s, c.hour);
    push_char(&mut s, ':');
    push_two_digits(&mut s, c.minute);
    push_char(&mut s, ':');
    push_two_digits(&mut s, c.second);
    push_char(&mut s, ' ');
    push_char(&mut s, 'U');
    push_char(&mut s, 'T');
    push_char(&mut s, 'C');
    proof {
        assert(s@ =~= civil_chars(c));
    }
    s
}

/// The string `s` has the exact shape `YYYY-MM-DD HH:MM:SS UTC`.
pub open spec fn utc_shape(s: Seq<char>) -> bool {
    &&& s.len() == 23
    &&& is_digit(s[0]) && is_digit(s[1]) && is_digit(s[2]) && is_digit(s[3])
    &&& s[4] == '-'
    &&& is_digit(s[5]) && is_digit(s[6])
    &&& s[7] == '-'
    &&& is_digit(s[8]) && is_digit(s[9])
    &&& s[10] == ' '
    &&& is_digit(s[11]) && is_digit(s[12])
    &&& s[13] == ':'
    &&& is_digit(s[14]) && is_digit(s[15])
    &&& s[16] == ':'
    &&& is_digit(s[17]) && is_digit(s[18])
    &&& s[19] == ' '
    &&& s[20] == 'U'
    &&& s[21] == 'T'
    &&& s[22] == 'C'
}

/// The value of the two digits of `s` at positions `i` and `i + 1`.
pub open spec fn two_digit_val(s: Seq<char>, i: int) -> int {
    digit_val(s[i]) * 10 + digit_val(s[i + 1])
}

/// The calendar fields spelled out in a string of UTC shape.
pub open spec fn parsed_civil(s: Seq<char>) -> CivilTime {
    CivilTime {
        year: (two_digit_val(s, 0) * 100 + two_digit_val(s, 2)) as u64,
        month: two_digit_val(s, 5) as u64,
        day: two_digit_val(s, 8) as u64,
        hour: two_digit_val(s, 11) as u64,
        minute: two_digit_val(s, 14) as u64,
        second: two_digit_val(s, 17) as u64,
    }
}

/// What parsing a UTC date-time string yields: the timestamp it names,
/// or nothing when the string is not the exact rendering shape or names
/// no real date.
pub open spec fn parse_utc_spec(s: Seq<char>) -> Option<i64> {
    if utc_shape(s) && civil_ok(parsed_civil(s)) {
        Some((civil_total_seconds(parsed_civil(s)) - EPOCH_OFFSET_SECONDS) as i64)
    } else {
        None
    }
}

/// The rendering of valid calendar fields parses back to those fields.
pub proof fn lemma_civil_chars_parse(c: CivilTime)
    requires
        civil_ok(c),
    ensures
        utc_shape(civil_chars(c)),
        parsed_civil(civil_chars(c)) == c,
        parse_utc_spec(civil_chars(c)) == Some(
            (civil_total_seconds(c) - EPOCH_OFFSET_SECONDS) as i64,
        ),
{
    let s = civil_chars(c);
    let y = c.year as int;
    lemma_fundamental_div_mod(y, 100);
    lemma_mod_division_less_than_divisor(y, 100);
    lemma_fundamental_div_mod(y / 100, 10);
    lemma_mod_division_less_than_divisor(y / 100, 10);
    lemma_fundamental_div_mod(y % 100, 10);
    lemma_mod_division_less_than_divisor(y % 100, 10);
    lemma_fundamental_div_mod(c.month as int, 10);
    lemma_mod_division_less_than_divisor(c.month as int, 10);
    lemma_fundamental_div_mod(c.day as int, 10);
    lemma_mod_division_less_than_divisor(c.day as int, 10);
    lemma_fundamental_div_mod(c.hour as int, 10);
    lemma_mod_division_less_than_divisor(c.hour as int, 10);
    lemma_fundamental_div_mod(c.minute as int, 10);
    lemma_mod_division_less_than_divisor(c.minute as int, 10);
    lemma_fundamental_div_mod(c.second as int, 10);
    lemma_mod_division_less_than_divisor(c.second as int, 10);
    assert(y / 100 <= 99) by {
        if y / 100 >= 100 {
            assert(y >= 100 * 100) by (nonlinear_arith)
                requires
                    y == 100 * (y / 100) + y % 100,
                    y / 100 >= 100,
                    y % 100 >= 0,
            ;
        }
    }
    assert(utc_shape(s));
    assert(two_digit_val(s, 0) == y / 100);
    assert(two_digit_val(s, 2) == y % 100);
    assert(parsed_civil(s).year == c.year);
    assert(parsed_civil(s) == c);
}

/// Parses a string of the shape `YYYY-MM-DD HH:MM:SS UTC` back into the
/// timestamp it names; any other string yields `None`.
pub fn parse_utc(s: &str) -> (r: Option<i64>)
    ensures
        r == parse_utc_spec(s@),
{
    if s.unicode_len() != 23 {
        return None;
    }
    let d0 = match digit_of(s.get_char(0)) { Some(v) => v, None => { return None }, };
    let d1 = match digit_of(s.get_char(1)) { Some(v) => v, None => { return None }, };
    let d2 = match digit_of(s.get_char(2)) { Some(v) => v, None => { return None }, };
    let d3 = match digit_of(s.get_char(3)) { Some(v) => v, None => { return None }, };
    let d5 = match digit_of(s.get_char(5)) { Some(v) => v, None => { return None }, };
    let d6 = match digit_of(s.get_char(6)) { Some(v) => v, None => { return None }, };
    let d8 = match digit_of(s.get_char(8)) { Some(v) => v, None => { return None }, };
    let d9 = match digit_of(s.get_char(9)) { Some(v) => v, None => { return None }, };
    let d11 = match digit_of(s.get_char(11)) { Some(v) => v, None => { return None }, };
    let d12 = match digit_of(s.get_char(12)) { Some(v) => v, None => { return None }, };
    let d14 = match digit_of(s.get_char(14)) { Some(v) => v, None => { return None }, };
    let d15 = match digit_of(s.get_char(15)) { Some(v) => v, None => { return None }, };
    let d17 = match digit_of(s.get_char(17)) { Some(v) => v, None => { return None }, };
    let d18 = match digit_of(s.get_char(18)) { Some(v) => v, None => { return None }, };
    if !(s.get_char(4) == '-' && s.get_char(7) == '-' && s.get_char(10) == ' ' && s.get_char(13)
        == ':' && s.get_char(16) == ':' && s.get_char(19) == ' ' && s.get_char(20) == 'U'
        && s.get_char(21) == 'T' && s.get_char(22) == 'C') {
        return None;
    }
    let year: u64 = ((d0 * 10 + d1) * 10 + d2) * 10 + d3;
    let month: u64 = d5 * 10 + d6;
    let day: u64 = d8 * 10 + d9;
    let hour: u64 = d11 * 10 + d12;
    let minute: u64 = d14 * 10 + d15;
    let second: u64 = d17 * 10 + d18;
    let c = CivilTime { year, month, day, hour, minute, second };
    proof {
        assert(utc_shape(s@));
        assert(c == parsed_civil(s@));
    }
    if !(1 <= month && month <= 12) {
        return None;
    }
    if !(1 <= day && day <= month_length(year, month)) {
        return None;
    }
    if !(hour < 24 && minute < 60 && second < 60) {
        return None;
    }
    let days: u64 = days_before_year_number(year) + days_before_month_number(year, month) + (day
        - 1);
    let total: u64 = days * 86400 + hour * 3600 + minute * 60 + second;
    let ts: i64 = (total as i64) - EPOCH_OFFSET_SECONDS;
    Some(ts)
}

/// Renders `ts` as `YYYY-MM-DD HH:MM:SS UTC`.  The rendering is exact:
/// parsing the returned string gives back `ts` itself.
pub fn format_utc(ts: i64) -> (r: String)
    requires
        MIN_FORMATTABLE_TS <= ts <= MAX_FORMATTABLE_TS,
    ensures
        r@.len() == 23,
        parse_utc_spec(r@) == Some(ts),
{
    let c = civil_of_timestamp(ts);
    let r = format_civil(c);
    proof {
        lemma_civil_chars_parse(c);
    }
    r
}

} // verus!
