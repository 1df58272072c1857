//! Decimal text for the timings shown in the performance window.

use vstd::prelude::*;

verus! {

/// The character for a single decimal digit.
pub open spec fn digit_char(digit: nat) -> char
    recommends
        digit < 10,
{
    ('0' as nat + digit) as char
}

/// The decimal numeral of `n`, without leading zeros.
pub open spec fn decimal(n: nat) -> Seq<char>
    decreases n,
{
    if n < 10 {
        seq![digit_char(n)]
    } else {
        decimal(n / 10).push(digit_char(n % 10))
    }
}

/// The last three decimal digits of `n`, with leading zeros.
pub open spec fn three_digits(n: nat) -> Seq<char> {
    seq![digit_char(n / 100 % 10), digit_char(n / 10 % 10), digit_char(n % 10)]
}

/// A span of `nanos` nanoseconds in whole microseconds, rounded to the
/// nearest, halves upwards.
pub open spec fn rounded_micros(nanos: nat) -> nat {
    (nanos + 500) / 1000
}

/// A span of `nanos` nanoseconds written in milliseconds with three decimal
/// places: `1234567` becomes `1.235`.
pub open spec fn millis_text(nanos: nat) -> Seq<char> {
    decimal(rounded_micros(nanos) / 1000) + seq!['.'] + three_digits(rounded_micros(nanos) % 1000)
}

/// The text of a single decimal digit.
fn digit_str(digit: u8) -> (text: &'static str)
    requires
        digit < 10,
    ensures
        text@ == seq![digit_char(digit as nat)],
{
    proof {
        reveal_strlit("0");
        reveal_strlit("1");
        reveal_strlit("2");
        reveal_strlit("3");
        reveal_strlit("4");
        reveal_strlit("5");
        reveal_strlit("6");
        reveal_strlit("7");
        reveal_strlit("8");
        reveal_strlit("9");
    }
    let text = if digit == 0 {
        "0"
    } else if digit == 1 {
        "1"
    } else if digit == 2 {
        "2"
    } else if digit == 3 {
        "3"
    } else if digit == 4 {
        "4"
    } else if digit == 5 {
        "5"
    } else if digit == 6 {
        "6"
    } else if digit == 7 {
        "7"
    } else if digit == 8 {
        "8"
    } else {
        "9"
    };
    assert(text@ =~= seq![digit_char(digit as nat)]);
    text
}

/// Appends the decimal numeral of `n` to `out`.
pub fn push_decimal(out: &mut String, n: u128)
    ensures
        final(out)@ == old(out)@ + decimal(n as nat),
    decreases n,
{
    if n >= 10 {
        push_decimal(out, n / 10);
    }
    out.append(digit_str((n % 10) as u8));
    assert(out@ =~= old(out)@ + decimal(n as nat));
}

/// Appends to `out` a span of `nanos` nanoseconds, written in milliseconds
/// with three decimal places.
pub fn push_millis(out: &mut String, nanos: u128)
    ensures
        final(out)@ == old(out)@ + millis_text(nanos as nat),
{
    let carry: u128 = if nanos % 1000 >= 500 {
        1
    } else {
        0
    };
    let micros: u128 = nanos / 1000 + carry;
    assert(micros == rounded_micros(nanos as nat));
    let fraction: u128 = micros % 1000;
    push_decimal(out, micros / 1000);
    proof {
        reveal_strlit(".");
    }
    out.append(".");
    out.append(digit_str((fraction / 100 % 10) as u8));
    out.append(digit_str((fraction / 10 % 10) as u8));
    out.append(digit_str((fraction % 10) as u8));
    assert(out@ =~= old(out)@ + millis_text(nanos as nat));
}

} // verus!
