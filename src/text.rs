//! Decimal rendering of integers, as the frames and the metrics document
//! write them.
use vstd::prelude::*;

verus! {

/// The character of decimal digit `d`.
pub open spec fn digit(d: nat) -> char {
    seq!['0', '1', '2', '3', '4', '5', '6', '7', '8', '9'][d as int]
}

/// `n` in decimal, without leading zeros.
pub open spec fn decimal(n: nat) -> Seq<char>
    decreases n,
{
    if n < 10 {
        seq![digit(n)]
    } else {
        decimal(n / 10).push(digit(n % 10))
    }
}

/// `n` thousandths as a decimal number with exactly three fraction digits.
pub open spec fn fixed3(n: nat) -> Seq<char> {
    let r = n % 1000;
    decimal(n / 1000) + seq!['.', digit(r / 100), digit((r / 10) % 10), digit(r % 10)]
}

fn digit_str(d: u128) -> (r: &'static str)
    requires
        d < 10,
    ensures
        r@ == seq![digit(d as nat)],
{
    proof {
        reveal_strlit("0");
        reveal_strlit("1");
        reveal_strlit("2");
        reveal_strlit("3");
        reveal_strlit("4");
        reveal_strlit("5");
        reveal_strlit("6");
        reveal_strlit("7");
        reveal_strlit("8");
        reveal_strlit("9");
    }
    let r = match d {
        0 => "0",
        1 => "1",
        2 => "2",
        3 => "3",
        4 => "4",
        5 => "5",
        6 => "6",
        7 => "7",
        8 => "8",
        _ => "9",
    };
    assert(r@ =~= seq![digit(d as nat)]);
    r
}

/// Appends `n` in decimal.
pub fn push_decimal(out: &mut String, n: u128)
    ensures
        final(out)@ == old(out)@ + decimal(n as nat),
    decreases n,
{
    if n >= 10 {
        push_decimal(out, n / 10);
    }
    out.append(digit_str(n % 10));
    assert(final(out)@ =~= old(out)@ + decimal(n as nat)) by {
        if n >= 10 {
            assert(decimal(n as nat) == decimal((n / 10) as nat).push(digit((n % 10) as nat)));
        }
    }
}

/// Appends `n` thousandths with three fraction digits.
pub fn push_fixed3(out: &mut String, n: u128)
    ensures
        final(out)@ == old(out)@ + fixed3(n as nat),
{
    let r = n % 1000;
    push_decimal(out, n / 1000);
    proof {
        reveal_strlit(".");
    }
    out.append(".");
    out.append(digit_str(r / 100));
    out.append(digit_str((r / 10) % 10));
    out.append(digit_str(r % 10));
    assert(final(out)@ =~= old(out)@ + fixed3(n as nat));
}

} // verus!
