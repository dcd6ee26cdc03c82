//! Numbers as text.

use vstd::prelude::*;
use vstd::string::StringExecFns;

verus! {

/// The character for the digit `d`.
pub open spec fn digit_char(d: int) -> char {
    if d == 0 {
        '0'
    } else if d == 1 {
        '1'
    } else if d == 2 {
        '2'
    } else if d == 3 {
        '3'
    } else if d == 4 {
        '4'
    } else if d == 5 {
        '5'
    } else if d == 6 {
        '6'
    } else if d == 7 {
        '7'
    } else if d == 8 {
        '8'
    } else {
        '9'
    }
}

/// The decimal digits of `n`, most significant first, without leading zeros.
pub open spec fn digits_text(n: nat) -> Seq<char>
    decreases n,
{
    if n < 10 {
        seq![digit_char(n as int)]
    } else {
        digits_text(n / 10).push(digit_char((n % 10) as int))
    }
}

/// `n` in decimal, with a minus sign before it where it is negative.
pub open spec fn decimal_text(n: int) -> Seq<char> {
    if n < 0 {
        seq!['-'] + digits_text((-n) as nat)
    } else {
        digits_text(n as nat)
    }
}

/// The digit `d` as a string of one character.
fn digit(d: u32) -> (text: &'static str)
    requires
        d < 10,
    ensures
        text@ == seq![digit_char(d as int)],
{
    proof {
        reveal_strlit("0");
        reveal_strlit("1");
        reveal_strlit("2");
        reveal_strlit("3");
        reveal_strlit("4");
        reveal_strlit("5");
        reveal_strlit("6");
        reveal_strlit("7");
        reveal_strlit("8");
        reveal_strlit("9");
    }
    let text = if d == 0 {
        "0"
    } else if d == 1 {
        "1"
    } else if d == 2 {
        "2"
    } else if d == 3 {
        "3"
    } else if d == 4 {
        "4"
    } else if d == 5 {
        "5"
    } else if d == 6 {
        "6"
    } else if d == 7 {
        "7"
    } else if d == 8 {
        "8"
    } else {
        "9"
    };
    assert(text@ =~= seq![digit_char(d as int)]);
    text
}

/// Writes `n` in decimal, as the standard library prints an integer.
pub fn decimal(n: i32) -> (text: String)
    ensures
        text@ == decimal_text(n as int),
{
    let magnitude: u32 = if n < 0 {
        (-(n as i64)) as u32
    } else {
        n as u32
    };
    let mut rest: u32 = magnitude / 10;
    let mut text = String::from_str(digit(magnitude % 10));
    assert(rest == 0 ==> text@ =~= digits_text(magnitude as nat));
    assert(rest > 0 ==> digits_text(rest as nat) + text@ =~= digits_text(magnitude as nat));
    while rest > 0
        invariant
            rest == 0 ==> text@ == digits_text(magnitude as nat),
            rest > 0 ==> digits_text(rest as nat) + text@ == digits_text(magnitude as nat),
        decreases rest,
    {
        let ghost before = text@;
        let ghost whole = rest;
        text = String::from_str(digit(rest % 10)).concat(text.as_str());
        rest = rest / 10;
        proof {
            let last = digit_char((whole % 10) as int);
            assert(text@ =~= seq![last] + before);
            if rest == 0 {
                assert(digits_text(whole as nat) =~= seq![last]);
            } else {
                assert(digits_text(whole as nat) =~= digits_text(rest as nat).push(last));
                assert(digits_text(rest as nat) + text@ =~= digits_text(whole as nat) + before);
            }
        }
    }
    if n < 0 {
        proof {
            reveal_strlit("-");
        }
        let signed = String::from_str("-").concat(text.as_str());
        assert(signed@ =~= seq!['-'] + text@);
        signed
    } else {
        text
    }
}

} // verus!
