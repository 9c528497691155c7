//! Characters, digits and decimal strings.
//!
//! The service renders several numbers as text: the next-halving date,
//! the circulating supply and an address balance.  This module holds the
//! digit vocabulary those renderings share, and the decimal rendering of
//! an unsigned number.

use vstd::prelude::*;
use vstd::string::StrSliceExecFns;

verus! {

/// The character for the decimal digit `v`.
pub open spec fn digit_char(v: int) -> char {
    ((48 + v) as u8) as char
}

/// `c` is one of the characters '0' through '9'.
pub open spec fn is_digit(c: char) -> bool {
    48 <= c as int <= 57
}

/// The value of the decimal digit `c`.
pub open spec fn digit_val(c: char) -> int {
    (c as int) - 48
}

/// The decimal digit value of `c`, or `None` when `c` is no digit.
pub fn digit_of(c: char) -> (r: Option<u64>)
    ensures
        r is Some <==> is_digit(c),
        r is Some ==> r.unwrap() == digit_val(c),
{
    let v = c as u32;
    if 48 <= v && v <= 57 {
        Some((v - 48) as u64)
    } else {
        None
    }
}

/// Relies on `String::push`: appends exactly the one character `c` at the
/// end of the string.
#[verifier::external_body]
pub(crate) fn push_char(s: &mut String, c: char)
    ensures
        final(s)@ == old(s)@.push(c),
{
    s.push(c);
}

/// The decimal rendering of `n >= 0`: no sign, no leading zero except for
/// the number 0 itself.
pub open spec fn dec_str(n: int) -> Seq<char>
    recommends
        n >= 0,
    decreases n,
{
    if n < 10 {
        seq![digit_char(n)]
    } else {
        dec_str(n / 10).push(digit_char(n % 10))
    }
}

/// Appends the decimal rendering of `n` to `s`.
fn push_decimal(s: &mut String, n: u64)
    ensures
        final(s)@ == old(s)@ + dec_str(n as int),
    decreases n,
{
    if n >= 10 {
        push_decimal(s, n / 10);
        push_char(s, ((48 + (n % 10)) as u8) as char);
        proof {
            assert(s@ =~= old(s)@ + dec_str(n as int));
        }
    } else {
        push_char(s, ((48 + n) as u8) as char);
        proof {
            assert(s@ =~= old(s)@ + dec_str(n as int));
        }
    }
}

/// The decimal string for `n`, as `to_string` on an unsigned integer
/// produces it.
pub fn decimal_string(n: u64) -> (r: String)
    ensures
        r@ == dec_str(n as int),
{
    let mut s = String::new();
    push_decimal(&mut s, n);
    proof {
        assert(s@ =~= dec_str(n as int));
    }
    s
}

/// Whether two string slices hold the same characters.
pub fn str_eq(a: &str, b: &str) -> (r: bool)
    ensures
        r == (a@ == b@),
{
    let n = a.unicode_len();
    if n != b.unicode_len() {
        return false;
    }
    let mut i: usize = 0;
    while i < n
        invariant
            0 <= i <= n,
            n == a@.len(),
            n == b@.len(),
            forall|j: int| 0 <= j < i ==> a@[j] == b@[j],
        decreases n - i,
    {
        if a.get_char(i) != b.get_char(i) {
            return false;
        }
        i = i + 1;
    }
    proof {
        assert(a@ =~= b@);
    }
    true
}

} // verus!
