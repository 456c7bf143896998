//! Plain-text formatting for the display: decimal digit strings and
//! fixed-precision values carried in hundredths of a unit.
use vstd::prelude::*;

verus! {

/// The digit character for one decimal digit.
pub open spec fn digit_char(d: int) -> char {
    if d == 0 {
        '0'
    } else if d == 1 {
        '1'
    } else if d == 2 {
        '2'
    } else if d == 3 {
        '3'
    } else if d == 4 {
        '4'
    } else if d == 5 {
        '5'
    } else if d == 6 {
        '6'
    } else if d == 7 {
        '7'
    } else if d == 8 {
        '8'
    } else {
        '9'
    }
}

/// The decimal digit string of a natural number, most significant digit
/// first, with no leading zeros except on zero itself.
pub open spec fn decimal_digits(n: nat) -> Seq<char>
    decreases n,
{
    if n < 10 {
        seq![digit_char(n as int)]
    } else {
        decimal_digits(n / 10).push(digit_char((n % 10) as int))
    }
}

/// A value in hundredths of a unit, written with two decimal places, as in
/// `-3.50`.
pub open spec fn fixed2(v: int) -> Seq<char> {
    if v >= 0 {
        fixed2_magnitude(v as nat)
    } else {
        seq!['-'] + fixed2_magnitude((-v) as nat)
    }
}

/// The two-decimal rendering of a non-negative count of hundredths.
pub open spec fn fixed2_magnitude(n: nat) -> Seq<char> {
    decimal_digits(n / 100) + seq!['.', digit_char((n / 10 % 10) as int), digit_char(
        (n % 10) as int,
    )]
}

/// Relies on String::push: appends exactly the given character to the end
/// of the string.
#[verifier::external_body]
fn push_char(s: &mut String, c: char)
    ensures
        final(s)@ == old(s)@.push(c),
{
    s.push(c)
}

/// The digit character for one decimal digit, as executable code.
fn digit(d: u64) -> (c: char)
    requires
        d < 10,
    ensures
        c == digit_char(d as int),
{
    if d == 0 {
        '0'
    } else if d == 1 {
        '1'
    } else if d == 2 {
        '2'
    } else if d == 3 {
        '3'
    } else if d == 4 {
        '4'
    } else if d == 5 {
        '5'
    } else if d == 6 {
        '6'
    } else if d == 7 {
        '7'
    } else if d == 8 {
        '8'
    } else {
        '9'
    }
}

/// Appends the decimal digit string of `n`.
fn push_decimal(s: &mut String, n: u64)
    ensures
        final(s)@ == old(s)@ + decimal_digits(n as nat),
    decreases n,
{
    if n < 10 {
        push_char(s, digit(n));
        proof {
            assert(s@ =~= old(s)@ + decimal_digits(n as nat));
        }
    } else {
        push_decimal(s, n / 10);
        push_char(s, digit(n % 10));
        proof {
            assert(s@ =~= old(s)@ + decimal_digits(n as nat));
        }
    }
}

/// Writes a value held in hundredths of a unit with two decimal places.
pub fn format_fixed2(v: i64) -> (r: String)
    requires
        v > i64::MIN,
    ensures
        r@ == fixed2(v as int),
{
    let mut s = String::new();
    let n: u64;
    if v < 0 {
        push_char(&mut s, '-');
        n = (-v) as u64;
    } else {
        n = v as u64;
    }
    push_decimal(&mut s, n / 100);
    push_char(&mut s, '.');
    push_char(&mut s, digit(n / 10 % 10));
    push_char(&mut s, digit(n % 10));
    proof {
        assert(s@ =~= fixed2(v as int));
    }
    s
}

/// A horizontal bar of the given length, drawn with dashes.
pub open spec fn dash_bar(len: nat) -> Seq<char> {
    Seq::new(len, |i: int| '-')
}

/// Builds a horizontal bar of `len` dashes.
pub fn make_dash_bar(len: u64) -> (r: String)
    ensures
        r@ == dash_bar(len as nat),
{
    let mut s = String::new();
    let mut i: u64 = 0;
    while i < len
        invariant
            i <= len,
            s@ =~= dash_bar(i as nat),
        decreases len - i,
    {
        push_char(&mut s, '-');
        proof {
            assert(s@ =~= dash_bar((i + 1) as nat));
        }
        i = i + 1;
    }
    s
}

} // verus!
