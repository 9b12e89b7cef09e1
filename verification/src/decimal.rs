//! Decimal rendering of integers, for the audit-trail events.
//!
//! Event fields carry amounts and identifiers as decimal strings; user
//! identifiers are rendered as fixed-width, zero-padded strings. The
//! renderers here are verified against the spec-level digit sequences.

use vstd::prelude::*;

use crate::amount::Amount;

verus! {

/// The character for one decimal digit.
pub open spec fn digit_char(d: int) -> char {
    if d == 0 {
        '0'
    } else if d == 1 {
        '1'
    } else if d == 2 {
        '2'
    } else if d == 3 {
        '3'
    } else if d == 4 {
        '4'
    } else if d == 5 {
        '5'
    } else if d == 6 {
        '6'
    } else if d == 7 {
        '7'
    } else if d == 8 {
        '8'
    } else {
        '9'
    }
}

/// The decimal digits of a non-negative integer, most significant first.
pub open spec fn dec_digits(n: nat) -> Seq<char>
    decreases n,
{
    if n < 10 {
        seq![digit_char(n as int)]
    } else {
        dec_digits(n / 10) + seq![digit_char((n % 10) as int)]
    }
}

/// The decimal rendering of a signed integer: a minus sign in front of the
/// digits of the magnitude when the value is negative.
pub open spec fn int_chars(v: int) -> Seq<char> {
    if v < 0 {
        seq!['-'] + dec_digits((-v) as nat)
    } else {
        dec_digits(v as nat)
    }
}

/// The decimal digits, zero-padded on the left up to `width` characters.
pub open spec fn padded_chars(n: nat, width: nat) -> Seq<char> {
    if dec_digits(n).len() >= width {
        dec_digits(n)
    } else {
        Seq::new((width - dec_digits(n).len()) as nat, |i: int| '0') + dec_digits(n)
    }
}

pub open spec fn pow10(k: nat) -> nat
    decreases k,
{
    if k == 0 {
        1nat
    } else {
        10 * pow10((k - 1) as nat)
    }
}

/// An integer below the k-th power of ten has at most k decimal digits.
pub proof fn lemma_dec_digits_len(n: nat, k: nat)
    requires
        n < pow10(k),
        k >= 1,
    ensures
        1 <= dec_digits(n).len() <= k,
    decreases n,
{
    if n < 10 {
    } else {
        let m = pow10((k - 1) as nat);
        assert(m >= 1) by {
            lemma_pow10_positive((k - 1) as nat);
        }
        assert(n / 10 < m) by (nonlinear_arith)
            requires
                n < 10 * m,
                m >= 1,
                n >= 10,
        ;
        lemma_dec_digits_len(n / 10, (k - 1) as nat);
    }
}

pub proof fn lemma_pow10_positive(k: nat)
    ensures
        pow10(k) >= 1,
    decreases k,
{
    if k > 0 {
        lemma_pow10_positive((k - 1) as nat);
    }
}

/// A 64-bit unsigned integer has at most twenty decimal digits.
pub proof fn lemma_u64_digits(n: u64)
    ensures
        1 <= dec_digits(n as nat).len() <= 20,
{
    assert(pow10(20) == 100000000000000000000nat) by {
        reveal_with_fuel(pow10, 21);
    }
    lemma_dec_digits_len(n as nat, 20);
}

/// The string for one decimal digit.
fn digit_str(d: u64) -> (r: &'static str)
    requires
        d < 10,
    ensures
        r@ == seq![digit_char(d as int)],
{
    proof {
        reveal_strlit("0");
        reveal_strlit("1");
        reveal_strlit("2");
        reveal_strlit("3");
        reveal_strlit("4");
        reveal_strlit("5");
        reveal_strlit("6");
        reveal_strlit("7");
        reveal_strlit("8");
        reveal_strlit("9");
    }
    match d {
        0 => "0",
        1 => "1",
        2 => "2",
        3 => "3",
        4 => "4",
        5 => "5",
        6 => "6",
        7 => "7",
        8 => "8",
        _ => "9",
    }
}

/// The decimal string of an unsigned 64-bit integer.
pub fn u64_to_string(n: u64) -> (r: String)
    ensures
        r@ == dec_digits(n as nat),
    decreases n,
{
    if n < 10 {
        digit_str(n).to_owned()
    } else {
        let mut s = u64_to_string(n / 10);
        s.append(digit_str(n % 10));
        s
    }
}

/// The number of decimal digits of an unsigned 64-bit integer.
pub fn num_digits(n: u64) -> (r: usize)
    ensures
        r == dec_digits(n as nat).len(),
        1 <= r <= 20,
    decreases n,
{
    proof {
        lemma_u64_digits(n);
    }
    if n < 10 {
        1
    } else {
        1 + num_digits(n / 10)
    }
}

/// A string of `count` zero characters.
fn zeros(count: usize) -> (r: String)
    ensures
        r@ == Seq::new(count as nat, |i: int| '0'),
{
    proof {
        reveal_strlit("0");
    }
    let mut s = String::new();
    let mut i: usize = 0;
    while i < count
        invariant
            i <= count,
            s@ == Seq::new(i as nat, |j: int| '0'),
        decreases count - i,
    {
        proof {
            reveal_strlit("0");
        }
        s.append("0");
        i = i + 1;
        assert(s@ =~= Seq::new(i as nat, |j: int| '0'));
    }
    assert(s@ =~= Seq::new(count as nat, |j: int| '0'));
    s
}

/// The decimal string of an unsigned 64-bit integer, zero-padded on the
/// left up to `width` characters.
pub fn u64_to_padded_string(n: u64, width: usize) -> (r: String)
    ensures
        r@ == padded_chars(n as nat, width as nat),
{
    let digits = num_digits(n);
    let tail = u64_to_string(n);
    if digits >= width {
        tail
    } else {
        let mut s = zeros(width - digits);
        s.append(tail.as_str());
        s
    }
}

/// The decimal string of an amount, with a minus sign when negative.
pub fn amount_to_string(a: Amount) -> (r: String)
    ensures
        r@ == int_chars(a@),
{
    proof {
        reveal_strlit("-");
    }
    if a.0 >= 0 {
        u64_to_string(a.0 as u64)
    } else {
        let magnitude: u64 = (-(a.0 as i128)) as u64;
        let mut s = "-".to_owned();
        s.append(u64_to_string(magnitude).as_str());
        assert(s@ =~= int_chars(a@));
        s
    }
}

/// The display string of a percentage: the digits followed by a percent
/// sign.
pub fn percent_string(p: u8) -> (r: String)
    ensures
        r@ == dec_digits(p as nat) + seq!['%'],
{
    proof {
        reveal_strlit("%");
    }
    let mut s = u64_to_string(p as u64);
    s.append("%");
    s
}

} // verus!
