//! Decimal text of integers and of fixed-point values in hundredths.

use vstd::prelude::*;

verus! {

/// The character of decimal digit `d` (`d < 10`).
pub open spec fn digit_char(d: nat) -> char {
    if d == 0 {
        '0'
    } else if d == 1 {
        '1'
    } else if d == 2 {
        '2'
    } else if d == 3 {
        '3'
    } else if d == 4 {
        '4'
    } else if d == 5 {
        '5'
    } else if d == 6 {
        '6'
    } else if d == 7 {
        '7'
    } else if d == 8 {
        '8'
    } else {
        '9'
    }
}

/// The decimal digits of `n`, most significant first, without leading zeros
/// (`0` is the single digit `'0'`).
pub open spec fn digits_of(n: nat) -> Seq<char>
    decreases n,
{
    if n < 10 {
        seq![digit_char(n)]
    } else {
        digits_of(n / 10).push(digit_char(n % 10))
    }
}

/// The absolute value of `v`.
pub open spec fn magnitude_of(v: int) -> nat {
    if v < 0 {
        (-v) as nat
    } else {
        v as nat
    }
}

/// `"-"` for a negative value, nothing otherwise.
pub open spec fn sign_text(v: int) -> Seq<char> {
    if v < 0 {
        seq!['-']
    } else {
        Seq::empty()
    }
}

/// An integer in decimal, with a leading minus when negative.
pub open spec fn int_text(v: int) -> Seq<char> {
    sign_text(v) + digits_of(magnitude_of(v))
}

/// A count of hundredths shown as a decimal number with exactly two
/// fractional digits: `2685` is `"26.85"`, `-5` is `"-0.05"`.
pub open spec fn hundredths_text(v: int) -> Seq<char> {
    let m = magnitude_of(v);
    sign_text(v) + digits_of(m / 100) + seq!['.', digit_char((m / 10) % 10), digit_char(m % 10)]
}

/// `v` divided by ten, rounded to the nearest integer, a half away from zero.
pub open spec fn tenth_rounded(v: int) -> int {
    if v < 0 {
        -((-v + 5) / 10)
    } else {
        (v + 5) / 10
    }
}

fn digit_str(d: u64) -> (r: &'static str)
    requires
        d < 10,
    ensures
        r@ == seq![digit_char(d as nat)],
{
    proof {
        reveal_strlit("0");
        reveal_strlit("1");
        reveal_strlit("2");
        reveal_strlit("3");
        reveal_strlit("4");
        reveal_strlit("5");
        reveal_strlit("6");
        reveal_strlit("7");
        reveal_strlit("8");
        reveal_strlit("9");
    }
    if d == 0 {
        "0"
    } else if d == 1 {
        "1"
    } else if d == 2 {
        "2"
    } else if d == 3 {
        "3"
    } else if d == 4 {
        "4"
    } else if d == 5 {
        "5"
    } else if d == 6 {
        "6"
    } else if d == 7 {
        "7"
    } else if d == 8 {
        "8"
    } else {
        "9"
    }
}

fn append_digits(out: &mut String, n: u64)
    ensures
        final(out)@ == old(out)@ + digits_of(n as nat),
    decreases n,
{
    if n >= 10 {
        append_digits(out, n / 10);
    }
    out.append(digit_str(n % 10));
    proof {
        if n >= 10 {
            assert(old(out)@ + digits_of(n as nat) =~= old(out)@ + digits_of((n / 10) as nat) + seq![
                digit_char((n % 10) as nat),
            ]);
        }
    }
}

fn magnitude(v: i64) -> (r: u64)
    ensures
        r as nat == magnitude_of(v as int),
{
    if v < 0 {
        (-(v + 1)) as u64 + 1
    } else {
        v as u64
    }
}

fn append_sign(out: &mut String, v: i64)
    ensures
        final(out)@ == old(out)@ + sign_text(v as int),
{
    if v < 0 {
        proof {
            reveal_strlit("-");
        }
        out.append("-");
    } else {
        assert(old(out)@ + sign_text(v as int) =~= old(out)@);
    }
}

/// Writes an integer in decimal.
pub fn int_to_text(v: i64) -> (r: String)
    ensures
        r@ == int_text(v as int),
{
    let mut out = String::new();
    append_sign(&mut out, v);
    append_digits(&mut out, magnitude(v));
    assert(out@ =~= int_text(v as int));
    out
}

/// Writes a count of hundredths as a decimal number with two fractional digits.
pub fn hundredths_to_text(v: i64) -> (r: String)
    ensures
        r@ == hundredths_text(v as int),
{
    let m = magnitude(v);
    let mut out = String::new();
    append_sign(&mut out, v);
    append_digits(&mut out, m / 100);
    proof {
        reveal_strlit(".");
    }
    out.append(".");
    out.append(digit_str((m / 10) % 10));
    out.append(digit_str(m % 10));
    assert(out@ =~= hundredths_text(v as int));
    out
}

/// Divides by ten and rounds to the nearest integer, a half away from zero.
pub fn round_tenth(v: i64) -> (r: i64)
    ensures
        r == tenth_rounded(v as int),
{
    if v < 0 {
        let q: u64 = ((-(v + 1)) as u64 + 6) / 10;
        -(q as i64)
    } else {
        ((v as u64 + 5) / 10) as i64
    }
}

} // verus!
