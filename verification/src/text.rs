//! Decimal rendering of the integer quantities that report lines carry.
//!
//! Fractional quantities (percentages, temperatures) reach the engine in
//! tenths of a unit, so that every rendering below is exact integer work.

use vstd::prelude::*;

verus! {

/// The decimal digit character for `d`, for `d <= 9`.
pub open spec fn digit_char(d: nat) -> char {
    if d == 0 {
        '0'
    } else if d == 1 {
        '1'
    } else if d == 2 {
        '2'
    } else if d == 3 {
        '3'
    } else if d == 4 {
        '4'
    } else if d == 5 {
        '5'
    } else if d == 6 {
        '6'
    } else if d == 7 {
        '7'
    } else if d == 8 {
        '8'
    } else {
        '9'
    }
}

/// Decimal rendering of `n`, most significant digit first, no leading zeros.
pub open spec fn dec_of(n: nat) -> Seq<char>
    decreases n,
{
    if n < 10 {
        seq![digit_char(n)]
    } else {
        dec_of(n / 10) + seq![digit_char(n % 10)]
    }
}

/// Decimal rendering of `n`, zero-padded on the left to at least two digits.
pub open spec fn pad2_of(n: nat) -> Seq<char> {
    if n < 10 {
        seq!['0'] + dec_of(n)
    } else {
        dec_of(n)
    }
}

/// Rendering of `t` tenths of a unit with exactly one decimal place.
pub open spec fn tenths_of(t: nat) -> Seq<char> {
    dec_of(t / 10) + seq!['.', digit_char(t % 10)]
}

/// Rendering of `t` tenths of a unit, with a leading minus sign when negative.
pub open spec fn signed_tenths_of(t: int) -> Seq<char> {
    if t < 0 {
        seq!['-'] + tenths_of((-t) as nat)
    } else {
        tenths_of(t as nat)
    }
}

fn digit_str(d: u64) -> (r: &'static str)
    requires
        d < 10,
    ensures
        r@ == seq![digit_char(d as nat)],
{
    proof {
        reveal_strlit("0");
        reveal_strlit("1");
        reveal_strlit("2");
        reveal_strlit("3");
        reveal_strlit("4");
        reveal_strlit("5");
        reveal_strlit("6");
        reveal_strlit("7");
        reveal_strlit("8");
        reveal_strlit("9");
    }
    let r: &'static str = if d == 0 {
        "0"
    } else if d == 1 {
        "1"
    } else if d == 2 {
        "2"
    } else if d == 3 {
        "3"
    } else if d == 4 {
        "4"
    } else if d == 5 {
        "5"
    } else if d == 6 {
        "6"
    } else if d == 7 {
        "7"
    } else if d == 8 {
        "8"
    } else {
        "9"
    };
    proof {
        assert(r@ =~= seq![digit_char(d as nat)]);
    }
    r
}

/// Renders `n` in decimal, matching `dec_of`.
pub fn u64_to_dec(n: u64) -> (r: String)
    ensures
        r@ == dec_of(n as nat),
    decreases n,
{
    if n < 10 {
        String::from_str(digit_str(n))
    } else {
        let mut s = u64_to_dec(n / 10);
        s.append(digit_str(n % 10));
        s
    }
}

/// Renders `n` in decimal, zero-padded to at least two digits.
pub fn u64_to_pad2(n: u64) -> (r: String)
    ensures
        r@ == pad2_of(n as nat),
{
    if n < 10 {
        let mut s = String::from_str("0");
        s.append(digit_str(n));
        proof {
            reveal_strlit("0");
            assert(s@ =~= pad2_of(n as nat));
        }
        s
    } else {
        u64_to_dec(n)
    }
}

/// Renders `t` tenths of a unit with one decimal place.
pub fn u64_to_tenths(t: u64) -> (r: String)
    ensures
        r@ == tenths_of(t as nat),
{
    let mut s = u64_to_dec(t / 10);
    s.append(".");
    s.append(digit_str(t % 10));
    proof {
        reveal_strlit(".");
        assert(s@ =~= tenths_of(t as nat));
    }
    s
}

/// Renders `t` tenths of a unit, signed, with one decimal place.
pub fn i32_to_signed_tenths(t: i32) -> (r: String)
    ensures
        r@ == signed_tenths_of(t as int),
{
    if t < 0 {
        let m: u64 = (-(t as i64)) as u64;
        let mut s = String::from_str("-");
        let tail = u64_to_tenths(m);
        s.append(tail.as_str());
        proof {
            reveal_strlit("-");
            assert(s@ =~= signed_tenths_of(t as int));
        }
        s
    } else {
        u64_to_tenths(t as u64)
    }
}

} // verus!
