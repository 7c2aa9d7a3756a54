//! Decimal rendering of whole and fixed-point numbers.

use vstd::prelude::*;
use vstd::string::*;

verus! {

/// The character of one decimal digit.
pub open spec fn digit_char(d: nat) -> char {
    if d == 0 {
        '0'
    } else if d == 1 {
        '1'
    } else if d == 2 {
        '2'
    } else if d == 3 {
        '3'
    } else if d == 4 {
        '4'
    } else if d == 5 {
        '5'
    } else if d == 6 {
        '6'
    } else if d == 7 {
        '7'
    } else if d == 8 {
        '8'
    } else {
        '9'
    }
}

/// A whole number in decimal notation, without leading zeros.
pub open spec fn decimal(n: nat) -> Seq<char>
    decreases n,
{
    if n < 10 {
        seq![digit_char(n)]
    } else {
        decimal(n / 10) + seq![digit_char(n % 10)]
    }
}

/// The last `width` decimal digits of `n`, padded with zeros on the left.
pub open spec fn padded(n: nat, width: nat) -> Seq<char>
    decreases width,
{
    if width == 0 {
        Seq::empty()
    } else {
        padded(n / 10, (width - 1) as nat) + seq![digit_char(n % 10)]
    }
}

/// A count of hundredths as a number with two decimals.
pub open spec fn fixed2(n: nat) -> Seq<char> {
    decimal(n / 100) + seq!['.'] + padded(n % 100, 2)
}

/// A count of ten-thousandths as a number with four decimals.
pub open spec fn fixed4(n: nat) -> Seq<char> {
    decimal(n / 10000) + seq!['.'] + padded(n % 10000, 4)
}

/// A signed count of hundredths as a number with two decimals.
pub open spec fn signed_fixed2(n: int) -> Seq<char> {
    if n < 0 {
        seq!['-'] + fixed2((-n) as nat)
    } else {
        fixed2(n as nat)
    }
}

fn digit_str(d: u64) -> (r: &'static str)
    requires
        d < 10,
    ensures
        r@ == seq![digit_char(d as nat)],
{
    proof {
        reveal_strlit("0");
        reveal_strlit("1");
        reveal_strlit("2");
        reveal_strlit("3");
        reveal_strlit("4");
        reveal_strlit("5");
        reveal_strlit("6");
        reveal_strlit("7");
        reveal_strlit("8");
        reveal_strlit("9");
    }
    let r = if d == 0 {
        "0"
    } else if d == 1 {
        "1"
    } else if d == 2 {
        "2"
    } else if d == 3 {
        "3"
    } else if d == 4 {
        "4"
    } else if d == 5 {
        "5"
    } else if d == 6 {
        "6"
    } else if d == 7 {
        "7"
    } else if d == 8 {
        "8"
    } else {
        "9"
    };
    assert(r@ =~= seq![digit_char(d as nat)]);
    r
}

/// Appends `n` in decimal notation to `out`.
pub fn push_decimal(out: &mut String, n: u64)
    ensures
        final(out)@ == old(out)@ + decimal(n as nat),
    decreases n,
{
    if n >= 10 {
        push_decimal(out, n / 10);
    }
    out.append(digit_str(n % 10));
    assert(final(out)@ =~= old(out)@ + decimal(n as nat));
}

/// Appends the last `width` digits of `n` to `out`, padded with zeros.
pub fn push_padded(out: &mut String, n: u64, width: u8)
    ensures
        final(out)@ == old(out)@ + padded(n as nat, width as nat),
    decreases width,
{
    if width > 0 {
        push_padded(out, n / 10, width - 1);
        out.append(digit_str(n % 10));
    }
    assert(final(out)@ =~= old(out)@ + padded(n as nat, width as nat));
}

/// `n` in decimal notation.
pub fn decimal_string(n: u64) -> (s: String)
    ensures
        s@ == decimal(n as nat),
{
    let mut s = String::new();
    push_decimal(&mut s, n);
    assert(s@ =~= decimal(n as nat));
    s
}

/// Appends a count of hundredths as a number with two decimals.
pub fn push_fixed2(out: &mut String, n: u64)
    ensures
        final(out)@ == old(out)@ + fixed2(n as nat),
{
    proof {
        reveal_strlit(".");
    }
    push_decimal(out, n / 100);
    out.append(".");
    push_padded(out, n % 100, 2);
    assert("."@ =~= seq!['.']);
    assert(final(out)@ =~= old(out)@ + fixed2(n as nat));
}

/// Appends a count of ten-thousandths as a number with four decimals.
pub fn push_fixed4(out: &mut String, n: u64)
    ensures
        final(out)@ == old(out)@ + fixed4(n as nat),
{
    proof {
        reveal_strlit(".");
    }
    push_decimal(out, n / 10000);
    out.append(".");
    push_padded(out, n % 10000, 4);
    assert("."@ =~= seq!['.']);
    assert(final(out)@ =~= old(out)@ + fixed4(n as nat));
}

/// Appends a signed count of hundredths as a number with two decimals.
pub fn push_signed_fixed2(out: &mut String, n: i64)
    ensures
        final(out)@ == old(out)@ + signed_fixed2(n as int),
{
    proof {
        reveal_strlit("-");
    }
    if n < 0 {
        out.append("-");
        assert("-"@ =~= seq!['-']);
        let m: u64 = if n == i64::MIN {
            9223372036854775808u64
        } else {
            (-n) as u64
        };
        push_fixed2(out, m);
        assert(final(out)@ =~= old(out)@ + signed_fixed2(n as int));
    } else {
        push_fixed2(out, n as u64);
    }
}

} // verus!
