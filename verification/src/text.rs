//! Verified decimal rendering of integers, used to build the indicator and
//! dialog messages without an unverified formatter.

use vstd::prelude::*;
use vstd::string::*;

verus! {

/// The decimal digit character for `d` in `0..10`.
pub open spec fn spec_digit_char(d: int) -> char {
    if d == 0 {
        '0'
    } else if d == 1 {
        '1'
    } else if d == 2 {
        '2'
    } else if d == 3 {
        '3'
    } else if d == 4 {
        '4'
    } else if d == 5 {
        '5'
    } else if d == 6 {
        '6'
    } else if d == 7 {
        '7'
    } else if d == 8 {
        '8'
    } else {
        '9'
    }
}

/// The decimal digit string of `n`, most significant digit first, with no
/// leading zeros (a single `'0'` for zero).
pub open spec fn spec_u64_dec(n: nat) -> Seq<char>
    decreases n,
{
    if n < 10 {
        seq![spec_digit_char(n as int)]
    } else {
        spec_u64_dec(n / 10) + seq![spec_digit_char((n % 10) as int)]
    }
}

/// The decimal rendering of a signed integer: a leading `'-'` for negative
/// values, then the digits of the magnitude.
pub open spec fn spec_i64_dec(i: int) -> Seq<char> {
    if i < 0 {
        seq!['-'] + spec_u64_dec((-i) as nat)
    } else {
        spec_u64_dec(i as nat)
    }
}

/// A decimal rendering is never empty.
pub proof fn lemma_u64_dec_nonempty(n: nat)
    ensures
        spec_u64_dec(n).len() >= 1,
    decreases n,
{
    if n >= 10 {
        lemma_u64_dec_nonempty(n / 10);
    }
}

/// A signed decimal rendering is never empty.
pub proof fn lemma_i64_dec_nonempty(i: int)
    ensures
        spec_i64_dec(i).len() >= 1,
{
    if i < 0 {
        lemma_u64_dec_nonempty((-i) as nat);
    } else {
        lemma_u64_dec_nonempty(i as nat);
    }
}

/// The one-character string for a decimal digit.
fn digit_str(d: u64) -> (r: &'static str)
    requires
        d < 10,
    ensures
        r@ == seq![spec_digit_char(d as int)],
{
    proof {
        reveal_strlit("0");
        reveal_strlit("1");
        reveal_strlit("2");
        reveal_strlit("3");
        reveal_strlit("4");
        reveal_strlit("5");
        reveal_strlit("6");
        reveal_strlit("7");
        reveal_strlit("8");
        reveal_strlit("9");
    }
    let r = if d == 0 {
        "0"
    } else if d == 1 {
        "1"
    } else if d == 2 {
        "2"
    } else if d == 3 {
        "3"
    } else if d == 4 {
        "4"
    } else if d == 5 {
        "5"
    } else if d == 6 {
        "6"
    } else if d == 7 {
        "7"
    } else if d == 8 {
        "8"
    } else {
        "9"
    };
    proof {
        assert(r@ =~= seq![spec_digit_char(d as int)]);
    }
    r
}

/// Renders `n` in decimal.
pub fn u64_dec(n: u64) -> (r: String)
    ensures
        r@ == spec_u64_dec(n as nat),
    decreases n,
{
    if n < 10 {
        digit_str(n).to_owned()
    } else {
        let mut s = u64_dec(n / 10);
        let d = digit_str(n % 10);
        s.append(d);
        s
    }
}

/// Renders `n` in decimal, with a leading minus sign when negative.
pub fn i64_dec(n: i64) -> (r: String)
    ensures
        r@ == spec_i64_dec(n as int),
{
    if n < 0 {
        let wide: i128 = n as i128;
        let mag: u64 = (-wide) as u64;
        let mut s = "-".to_owned();
        proof {
            reveal_strlit("-");
            assert(s@ =~= seq!['-']);
        }
        let digits = u64_dec(mag);
        s.append(digits.as_str());
        proof {
            assert(s@ =~= spec_i64_dec(n as int));
        }
        s
    } else {
        u64_dec(n as u64)
    }
}

} // verus!
