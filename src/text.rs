//! Decimal rendering of unsigned integers and fixed-point amounts.
use vstd::prelude::*;

verus! {

/// The ten decimal digits, in order.
pub open spec fn digit_chars() -> Seq<char> {
    seq!['0', '1', '2', '3', '4', '5', '6', '7', '8', '9']
}

/// The decimal representation of `n`, without leading zeros.
pub open spec fn decimal(n: nat) -> Seq<char>
    decreases n,
{
    if n < 10 {
        seq![digit_chars()[n as int]]
    } else {
        decimal(n / 10) + seq![digit_chars()[(n % 10) as int]]
    }
}

/// An amount held in hundredths, written as whole units, a point and
/// exactly two digits of hundredths (`100050` is `1000.50`).
pub open spec fn amount_text(cents: nat) -> Seq<char> {
    decimal(cents / 100) + seq!['.'] + seq![
        digit_chars()[((cents % 100) / 10) as int],
        digit_chars()[(cents % 10) as int],
    ]
}

/// The one-character string of the digit `d`.
fn digit_str(d: u64) -> (r: &'static str)
    requires
        d < 10,
    ensures
        r@ == seq![digit_chars()[d as int]],
{
    proof {
        reveal_strlit("0");
        reveal_strlit("1");
        reveal_strlit("2");
        reveal_strlit("3");
        reveal_strlit("4");
        reveal_strlit("5");
        reveal_strlit("6");
        reveal_strlit("7");
        reveal_strlit("8");
        reveal_strlit("9");
    }
    let r = match d {
        0 => "0",
        1 => "1",
        2 => "2",
        3 => "3",
        4 => "4",
        5 => "5",
        6 => "6",
        7 => "7",
        8 => "8",
        _ => "9",
    };
    assert(r@ =~= seq![digit_chars()[d as int]]);
    r
}

/// Appends the decimal representation of `n` to `s`.
pub fn push_decimal(s: &mut String, n: u64)
    ensures
        final(s)@ == old(s)@ + decimal(n as nat),
    decreases n,
{
    if n >= 10 {
        push_decimal(s, n / 10);
        s.append(digit_str(n % 10));
        assert(final(s)@ =~= old(s)@ + decimal(n as nat));
    } else {
        s.append(digit_str(n));
    }
}

/// Appends `cents` hundredths, written as `amount_text` gives it, to `s`.
pub fn push_amount(s: &mut String, cents: u64)
    ensures
        final(s)@ == old(s)@ + amount_text(cents as nat),
{
    push_decimal(s, cents / 100);
    proof {
        reveal_strlit(".");
    }
    s.append(".");
    s.append(digit_str((cents % 100) / 10));
    s.append(digit_str(cents % 10));
    assert(final(s)@ =~= old(s)@ + amount_text(cents as nat));
}

} // verus!
