//! Building status messages.
//!
//! Status and history lines are assembled by appending pieces to a `String`.
//! The one operation vstd gives no specification for, `String::push_str`, is
//! trusted; decimal rendering of an unsigned integer is verified against a
//! recursive digit function.

use vstd::prelude::*;

verus! {

/// Relies on `String::push_str`: it appends the given slice to the end of
/// the string.
#[verifier::external_body]
pub(crate) fn append_str(s: &mut String, t: &str)
    ensures
        final(s)@ == old(s)@ + t@,
{
    s.push_str(t);
}

/// The character for one decimal digit.
pub open spec fn dec_digit(d: u64) -> char
    recommends
        d < 10,
{
    if d == 0 {
        '0'
    } else if d == 1 {
        '1'
    } else if d == 2 {
        '2'
    } else if d == 3 {
        '3'
    } else if d == 4 {
        '4'
    } else if d == 5 {
        '5'
    } else if d == 6 {
        '6'
    } else if d == 7 {
        '7'
    } else if d == 8 {
        '8'
    } else {
        '9'
    }
}

/// The decimal digits of `n`, most significant first.
pub open spec fn dec_chars(n: u64) -> Seq<char>
    decreases n,
{
    if n < 10 {
        seq![dec_digit(n)]
    } else {
        dec_chars(n / 10).push(dec_digit(n % 10))
    }
}

/// A one-character string for one decimal digit.
fn digit_str(d: u64) -> (r: &'static str)
    requires
        d < 10,
    ensures
        r@ == seq![dec_digit(d)],
{
    proof {
        reveal_strlit("0");
        reveal_strlit("1");
        reveal_strlit("2");
        reveal_strlit("3");
        reveal_strlit("4");
        reveal_strlit("5");
        reveal_strlit("6");
        reveal_strlit("7");
        reveal_strlit("8");
        reveal_strlit("9");
    }
    let r = if d == 0 {
        "0"
    } else if d == 1 {
        "1"
    } else if d == 2 {
        "2"
    } else if d == 3 {
        "3"
    } else if d == 4 {
        "4"
    } else if d == 5 {
        "5"
    } else if d == 6 {
        "6"
    } else if d == 7 {
        "7"
    } else if d == 8 {
        "8"
    } else {
        "9"
    };
    proof {
        assert(r@ =~= seq![dec_digit(d)]);
    }
    r
}

/// Renders `n` in decimal.
pub fn dec_string(n: u64) -> (s: String)
    ensures
        s@ == dec_chars(n),
    decreases n,
{
    if n < 10 {
        digit_str(n).to_owned()
    } else {
        let mut s = dec_string(n / 10);
        append_str(&mut s, digit_str(n % 10));
        proof {
            assert(s@ =~= dec_chars(n));
        }
        s
    }
}

} // verus!
