//! Decimal rendering of counter values, for the acknowledgment attributes.

use vstd::prelude::*;
use vstd::string::StringExecFns;

verus! {

/// The decimal digit character for `d` in `0 ..= 9`.
pub open spec fn dec_digit_char(d: int) -> char {
    if d == 0 {
        '0'
    } else if d == 1 {
        '1'
    } else if d == 2 {
        '2'
    } else if d == 3 {
        '3'
    } else if d == 4 {
        '4'
    } else if d == 5 {
        '5'
    } else if d == 6 {
        '6'
    } else if d == 7 {
        '7'
    } else if d == 8 {
        '8'
    } else {
        '9'
    }
}

/// The decimal representation of a non-negative integer, without sign and
/// without leading zeros (a single `'0'` for zero).
pub open spec fn dec_rep_nat(n: int) -> Seq<char>
    decreases n,
{
    if n < 10 {
        seq![dec_digit_char(n)]
    } else {
        dec_rep_nat(n / 10).push(dec_digit_char(n % 10))
    }
}

/// The decimal representation of a 32-bit signed counter value: the digits of
/// its magnitude, preceded by `'-'` when it is negative.
pub open spec fn dec_rep_i32(n: int) -> Seq<char> {
    if n < 0 {
        seq!['-'] + dec_rep_nat(-n)
    } else {
        dec_rep_nat(n)
    }
}

/// The one-character string for a decimal digit.
fn digit_str(d: u32) -> (r: &'static str)
    requires
        d < 10,
    ensures
        r@ == seq![dec_digit_char(d as int)],
{
    let r: &'static str = if d == 0 {
        "0"
    } else if d == 1 {
        "1"
    } else if d == 2 {
        "2"
    } else if d == 3 {
        "3"
    } else if d == 4 {
        "4"
    } else if d == 5 {
        "5"
    } else if d == 6 {
        "6"
    } else if d == 7 {
        "7"
    } else if d == 8 {
        "8"
    } else {
        "9"
    };
    proof {
        reveal_strlit("0");
        reveal_strlit("1");
        reveal_strlit("2");
        reveal_strlit("3");
        reveal_strlit("4");
        reveal_strlit("5");
        reveal_strlit("6");
        reveal_strlit("7");
        reveal_strlit("8");
        reveal_strlit("9");
        assert(r@ =~= seq![dec_digit_char(d as int)]);
    }
    r
}

/// Renders a non-negative value in decimal.
pub fn u32_to_dec(n: u32) -> (r: String)
    ensures
        r@ == dec_rep_nat(n as int),
    decreases n,
{
    if n < 10 {
        digit_str(n).to_owned()
    } else {
        let mut s = u32_to_dec(n / 10);
        s.append(digit_str(n % 10));
        proof {
            assert(s@ =~= dec_rep_nat(n as int));
        }
        s
    }
}

/// Renders a 32-bit signed counter value in decimal.
pub fn i32_to_dec(n: i32) -> (r: String)
    ensures
        r@ == dec_rep_i32(n as int),
{
    if n >= 0 {
        u32_to_dec(n as u32)
    } else {
        let mag: u32 = if n == i32::MIN {
            2147483648
        } else {
            (-n) as u32
        };
        assert(mag as int == -(n as int));
        let mut s: String = "-".to_owned();
        let tail = u32_to_dec(mag);
        s.append(tail.as_str());
        proof {
            reveal_strlit("-");
            assert(s@ =~= dec_rep_i32(n as int));
        }
        s
    }
}

} // verus!
