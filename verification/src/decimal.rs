//! Decimal text of integers, for diagnostics.

use vstd::prelude::*;
use vstd::string::*;

verus! {

/// The character that writes the digit `d`.
pub open spec fn digit(d: int) -> char
    recommends
        0 <= d < 10,
{
    if d == 0 {
        '0'
    } else if d == 1 {
        '1'
    } else if d == 2 {
        '2'
    } else if d == 3 {
        '3'
    } else if d == 4 {
        '4'
    } else if d == 5 {
        '5'
    } else if d == 6 {
        '6'
    } else if d == 7 {
        '7'
    } else if d == 8 {
        '8'
    } else {
        '9'
    }
}

/// The decimal numeral of `n`: most significant digit first, no leading zero
/// but for zero itself.
pub open spec fn decimal(n: nat) -> Seq<char>
    decreases n,
{
    if n < 10 {
        seq![digit(n as int)]
    } else {
        decimal(n / 10).push(digit((n % 10) as int))
    }
}

/// The decimal numeral of `v`, with a minus sign in front of a negative one.
pub open spec fn signed_decimal(v: int) -> Seq<char> {
    if v < 0 {
        seq!['-'] + decimal((-v) as nat)
    } else {
        decimal(v as nat)
    }
}

/// The one-character text of the digit `d`.
fn digit_text(d: u64) -> (text: &'static str)
    requires
        d < 10,
    ensures
        text@ == seq![digit(d as int)],
{
    proof {
        reveal_strlit("0");
        reveal_strlit("1");
        reveal_strlit("2");
        reveal_strlit("3");
        reveal_strlit("4");
        reveal_strlit("5");
        reveal_strlit("6");
        reveal_strlit("7");
        reveal_strlit("8");
        reveal_strlit("9");
    }
    if d == 0 {
        "0"
    } else if d == 1 {
        "1"
    } else if d == 2 {
        "2"
    } else if d == 3 {
        "3"
    } else if d == 4 {
        "4"
    } else if d == 5 {
        "5"
    } else if d == 6 {
        "6"
    } else if d == 7 {
        "7"
    } else if d == 8 {
        "8"
    } else {
        "9"
    }
}

/// Writes the decimal numeral of `n` at the end of `text`.
pub(crate) fn append_decimal(text: &mut String, n: u64)
    ensures
        final(text)@ == old(text)@ + decimal(n as nat),
    decreases n,
{
    if n >= 10 {
        append_decimal(text, n / 10);
    }
    text.append(digit_text(n % 10));
    assert(text@ == old(text)@ + decimal(n as nat));
}

/// Writes the decimal numeral of `v` at the end of `text`, with a minus sign
/// in front of a negative one.
pub(crate) fn append_signed_decimal(text: &mut String, v: i32)
    ensures
        final(text)@ == old(text)@ + signed_decimal(v as int),
{
    if v < 0 {
        proof {
            reveal_strlit("-");
        }
        text.append("-");
        let magnitude: u64 = (-(v as i64)) as u64;
        append_decimal(text, magnitude);
        assert(text@ == old(text)@ + signed_decimal(v as int));
    } else {
        append_decimal(text, v as u64);
    }
}

/// A numeral is not empty, and holds digits only.
pub proof fn decimal_holds_digits(n: nat)
    ensures
        decimal(n).len() >= 1,
        forall|i: int| 0 <= i < decimal(n).len() ==> '0' <= #[trigger] decimal(n)[i] <= '9',
    decreases n,
{
    if n >= 10 {
        decimal_holds_digits(n / 10);
    }
}

/// Two numbers with the same numeral are the same number.
pub proof fn decimal_is_injective(a: nat, b: nat)
    requires
        decimal(a) == decimal(b),
    ensures
        a == b,
    decreases a,
{
    decimal_holds_digits(a / 10);
    decimal_holds_digits(b / 10);
    if a < 10 && b < 10 {
        assert(decimal(a)[0] == digit(a as int));
        assert(decimal(b)[0] == digit(b as int));
    } else if a >= 10 && b >= 10 {
        assert(decimal(a).drop_last() =~= decimal(a / 10));
        assert(decimal(b).drop_last() =~= decimal(b / 10));
        decimal_is_injective(a / 10, b / 10);
        assert(decimal(a).last() == digit((a % 10) as int));
        assert(decimal(b).last() == digit((b % 10) as int));
    } else {
        assert(decimal(a).len() != decimal(b).len());
    }
}

/// Two integers with the same signed numeral are the same integer.
pub proof fn signed_decimal_is_injective(v: int, w: int)
    requires
        signed_decimal(v) == signed_decimal(w),
    ensures
        v == w,
{
    let magnitude_v = (if v < 0 { -v } else { v }) as nat;
    let magnitude_w = (if w < 0 { -w } else { w }) as nat;
    decimal_holds_digits(magnitude_v);
    decimal_holds_digits(magnitude_w);
    if v < 0 && w < 0 {
        assert(signed_decimal(v).skip(1) =~= decimal(magnitude_v));
        assert(signed_decimal(w).skip(1) =~= decimal(magnitude_w));
        decimal_is_injective(magnitude_v, magnitude_w);
    } else if v >= 0 && w >= 0 {
        decimal_is_injective(magnitude_v, magnitude_w);
    } else if v < 0 {
        assert(signed_decimal(v)[0] == '-');
        assert(signed_decimal(w)[0] == decimal(magnitude_w)[0]);
    } else {
        assert(signed_decimal(w)[0] == '-');
        assert(signed_decimal(v)[0] == decimal(magnitude_v)[0]);
    }
}

} // verus!
