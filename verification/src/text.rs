//! Decimal text: the digits of a number, and fixed-point renderings with one
//! or two places after the point.

use vstd::prelude::*;
use vstd::string::*;

verus! {

/// The character that writes the digit `d`.
pub open spec fn digit_char(d: int) -> char
    recommends
        0 <= d <= 9,
{
    seq!['0', '1', '2', '3', '4', '5', '6', '7', '8', '9'][d]
}

/// `n` written in base ten, without sign or leading zeros.
pub open spec fn decimal(n: nat) -> Seq<char>
    decreases n,
{
    if n < 10 {
        seq![digit_char(n as int)]
    } else {
        decimal(n / 10).push(digit_char((n % 10) as int))
    }
}

/// A count of tenths written with one place after the point: 305 is `30.5`.
pub open spec fn fixed1(tenths: nat) -> Seq<char> {
    decimal(tenths / 10) + seq!['.', digit_char((tenths % 10) as int)]
}

/// A count of hundredths written with two places after the point: 715 is
/// `7.15`.
pub open spec fn fixed2(hundredths: nat) -> Seq<char> {
    decimal(hundredths / 100) + seq![
        '.',
        digit_char(((hundredths / 10) % 10) as int),
        digit_char((hundredths % 10) as int),
    ]
}

/// A number of bytes in hundredths of a binary megabyte, rounded to the
/// nearest hundredth, a half upwards.
pub open spec fn mib_hundredths(bytes: nat) -> nat {
    ((bytes * 100 + 524288) / 1048576) as nat
}

/// The one-character text of a digit.
fn digit_str(d: u64) -> (s: &'static str)
    requires
        d <= 9,
    ensures
        s@ == seq![digit_char(d as int)],
{
    proof {
        reveal_strlit("0");
        reveal_strlit("1");
        reveal_strlit("2");
        reveal_strlit("3");
        reveal_strlit("4");
        reveal_strlit("5");
        reveal_strlit("6");
        reveal_strlit("7");
        reveal_strlit("8");
        reveal_strlit("9");
    }
    let s = if d == 0 {
        "0"
    } else if d == 1 {
        "1"
    } else if d == 2 {
        "2"
    } else if d == 3 {
        "3"
    } else if d == 4 {
        "4"
    } else if d == 5 {
        "5"
    } else if d == 6 {
        "6"
    } else if d == 7 {
        "7"
    } else if d == 8 {
        "8"
    } else {
        "9"
    };
    assert(s@ =~= seq![digit_char(d as int)]);
    s
}

/// Appends `n` in base ten to `out`.
pub fn append_decimal(out: &mut String, n: u64)
    ensures
        final(out)@ == old(out)@ + decimal(n as nat),
    decreases n,
{
    if n >= 10 {
        append_decimal(out, n / 10);
    }
    out.append(digit_str(n % 10));
    assert(final(out)@ =~= old(out)@ + decimal(n as nat));
}

/// Appends a count of tenths with one place after the point to `out`.
pub fn append_fixed1(out: &mut String, tenths: u64)
    ensures
        final(out)@ == old(out)@ + fixed1(tenths as nat),
{
    append_decimal(out, tenths / 10);
    out.append(".");
    out.append(digit_str(tenths % 10));
    proof {
        reveal_strlit(".");
        assert(final(out)@ =~= old(out)@ + fixed1(tenths as nat));
    }
}

/// Appends a count of hundredths with two places after the point to `out`.
pub fn append_fixed2(out: &mut String, hundredths: u64)
    ensures
        final(out)@ == old(out)@ + fixed2(hundredths as nat),
{
    append_decimal(out, hundredths / 100);
    out.append(".");
    out.append(digit_str((hundredths / 10) % 10));
    out.append(digit_str(hundredths % 10));
    proof {
        reveal_strlit(".");
        assert(final(out)@ =~= old(out)@ + fixed2(hundredths as nat));
    }
}

/// `bytes` in hundredths of a binary megabyte, rounded to the nearest.
pub fn to_mib_hundredths(bytes: u64) -> (h: u64)
    ensures
        h as nat == mib_hundredths(bytes as nat),
{
    let scaled: u128 = bytes as u128 * 100 + 524288;
    (scaled / 1048576) as u64
}

} // verus!
