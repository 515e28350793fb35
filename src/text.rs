//! Decimal rendering of integers.
use vstd::prelude::*;
use vstd::string::*;

verus! {

/// The character of a decimal digit.
pub open spec fn digit_char(d: nat) -> char {
    (('0' as nat) + d) as char
}

/// The decimal text of `n`, without leading zeros.
pub open spec fn decimal(n: nat) -> Seq<char>
    decreases n,
{
    if n < 10 {
        seq![digit_char(n)]
    } else {
        decimal(n / 10).push(digit_char(n % 10))
    }
}

/// `decimal(n)` padded on the left with `fill` to at least three characters.
pub open spec fn pad3(n: nat, fill: char) -> Seq<char> {
    if n < 10 {
        seq![fill, fill] + decimal(n)
    } else if n < 100 {
        seq![fill] + decimal(n)
    } else {
        decimal(n)
    }
}

fn digit_str(d: u128) -> (r: &'static str)
    requires
        d < 10,
    ensures
        r@ == seq![digit_char(d as nat)],
{
    proof {
        reveal_strlit("0");
        reveal_strlit("1");
        reveal_strlit("2");
        reveal_strlit("3");
        reveal_strlit("4");
        reveal_strlit("5");
        reveal_strlit("6");
        reveal_strlit("7");
        reveal_strlit("8");
        reveal_strlit("9");
    }
    let r = if d == 0 {
        "0"
    } else if d == 1 {
        "1"
    } else if d == 2 {
        "2"
    } else if d == 3 {
        "3"
    } else if d == 4 {
        "4"
    } else if d == 5 {
        "5"
    } else if d == 6 {
        "6"
    } else if d == 7 {
        "7"
    } else if d == 8 {
        "8"
    } else {
        "9"
    };
    assert(r@ =~= seq![digit_char(d as nat)]);
    r
}

/// Appends the decimal text of `n` to `out`.
pub fn push_decimal(out: &mut String, n: u128)
    ensures
        final(out)@ == old(out)@ + decimal(n as nat),
    decreases n,
{
    if n >= 10 {
        push_decimal(out, n / 10);
    }
    out.append(digit_str(n % 10));
    proof {
        if n >= 10 {
            assert(old(out)@ + decimal((n / 10) as nat) + seq![digit_char((n % 10) as nat)]
                =~= old(out)@ + decimal(n as nat));
        } else {
            assert(old(out)@ + seq![digit_char((n % 10) as nat)] =~= old(out)@ + decimal(n as nat));
        }
    }
}

/// Appends `n` padded on the left with `fill` to at least three characters.
pub fn push_pad3(out: &mut String, n: u128, fill: &str)
    requires
        fill@.len() == 1,
    ensures
        final(out)@ == old(out)@ + pad3(n as nat, fill@[0]),
{
    if n < 10 {
        out.append(fill);
        out.append(fill);
    } else if n < 100 {
        out.append(fill);
    }
    push_decimal(out, n);
    proof {
        let f = fill@[0];
        assert(fill@ =~= seq![f]);
        if n < 10 {
            assert(old(out)@ + fill@ + fill@ + decimal(n as nat) =~= old(out)@ + pad3(n as nat, f));
        } else if n < 100 {
            assert(old(out)@ + fill@ + decimal(n as nat) =~= old(out)@ + pad3(n as nat, f));
        }
    }
}

} // verus!
