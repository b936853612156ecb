//! How a checked integer is written out.
//!
//! A valid integer is written as the integer itself, in decimal, with a minus sign if it is
//! negative. The overflow mark is written as the word `overflow`.

use crate::num::Checked;
use crate::width::Primitive;
use vstd::prelude::*;
use vstd::string::StringExecFns;

verus! {

/// The character for the digit `d`.
pub open spec fn digit(d: int) -> char
    recommends
        0 <= d < 10,
{
    seq!['0', '1', '2', '3', '4', '5', '6', '7', '8', '9'][d]
}

/// The decimal digits of `n`, most significant first, without leading zeros.
pub open spec fn decimal_digits(n: nat) -> Seq<char>
    decreases n,
{
    if n < 10 {
        seq![digit(n as int)]
    } else {
        decimal_digits(n / 10).push(digit((n % 10) as int))
    }
}

/// The decimal text of `v`: its digits, after a minus sign if it is negative.
pub open spec fn decimal(v: int) -> Seq<char> {
    if v < 0 {
        seq!['-'] + decimal_digits((-v) as nat)
    } else {
        decimal_digits(v as nat)
    }
}

/// The text of a checked integer that holds `held`.
pub open spec fn text_of(held: Option<int>) -> Seq<char> {
    match held {
        Some(v) => decimal(v),
        None => "overflow"@,
    }
}

/// The text of a single digit.
fn digit_text(d: u128) -> (t: &'static str)
    requires
        d < 10,
    ensures
        t@ == seq![digit(d as int)],
{
    proof {
        reveal_strlit("0");
        reveal_strlit("1");
        reveal_strlit("2");
        reveal_strlit("3");
        reveal_strlit("4");
        reveal_strlit("5");
        reveal_strlit("6");
        reveal_strlit("7");
        reveal_strlit("8");
        reveal_strlit("9");
    }
    let t = if d == 0 {
        "0"
    } else if d == 1 {
        "1"
    } else if d == 2 {
        "2"
    } else if d == 3 {
        "3"
    } else if d == 4 {
        "4"
    } else if d == 5 {
        "5"
    } else if d == 6 {
        "6"
    } else if d == 7 {
        "7"
    } else if d == 8 {
        "8"
    } else {
        "9"
    };
    assert(t@ =~= seq![digit(d as int)]);
    t
}

/// Appends the decimal digits of `n` to `s`.
fn append_digits(s: &mut String, n: u128)
    ensures
        final(s)@ == old(s)@ + decimal_digits(n as nat),
    decreases n,
{
    if n >= 10 {
        append_digits(s, n / 10);
    }
    let t = digit_text(n % 10);
    s.append(t);
    assert(final(s)@ =~= old(s)@ + decimal_digits(n as nat));
}

/// Writes `v` out in decimal.
pub fn decimal_string(v: i128) -> (s: String)
    ensures
        s@ == decimal(v as int),
{
    let mut s = String::new();
    if v < 0 {
        proof {
            reveal_strlit("-");
        }
        s.append("-");
        let m: u128 = if v == i128::MIN {
            0x8000_0000_0000_0000_0000_0000_0000_0000u128
        } else {
            (-v) as u128
        };
        append_digits(&mut s, m);
        assert(s@ =~= decimal(v as int));
    } else {
        append_digits(&mut s, v as u128);
        assert(s@ =~= decimal(v as int));
    }
    s
}

impl<T: Primitive> Checked<T> {
    /// Writes the checked integer out: the integer itself if it is valid, `overflow` if not.
    pub fn to_string(&self) -> (s: String)
        ensures
            s@ == text_of(self@),
    {
        match self.0 {
            Some(x) => decimal_string(x.widen()),
            None => String::from_str("overflow"),
        }
    }
}

} // verus!
