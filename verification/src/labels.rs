//! The axis label written beside a split value: the first four axes carry
//! their customary letter, every further axis is written as `x` followed by
//! its index in decimal.

use vstd::prelude::*;
use vstd::string::StringExecFns;

verus! {

pub open spec fn decimal_digit(d: nat) -> char {
    if d == 0 {
        '0'
    } else if d == 1 {
        '1'
    } else if d == 2 {
        '2'
    } else if d == 3 {
        '3'
    } else if d == 4 {
        '4'
    } else if d == 5 {
        '5'
    } else if d == 6 {
        '6'
    } else if d == 7 {
        '7'
    } else if d == 8 {
        '8'
    } else {
        '9'
    }
}

/// The usual decimal digits of `n`, most significant first, no sign and no
/// leading zero (except for `n == 0` itself).
pub open spec fn decimal_text(n: nat) -> Seq<char>
    decreases n,
{
    if n < 10 {
        seq![decimal_digit(n)]
    } else {
        decimal_text(n / 10) + seq![decimal_digit(n % 10)]
    }
}

/// The label an axis index prints as: `x`, `y`, `z`, `w` for the first four
/// axes, `x` followed by the index for any further axis.
pub open spec fn axis_label_text(axis: nat) -> Seq<char> {
    if axis == 0 {
        "x"@
    } else if axis == 1 {
        "y"@
    } else if axis == 2 {
        "z"@
    } else if axis == 3 {
        "w"@
    } else {
        "x"@ + decimal_text(axis)
    }
}

fn digit_str(d: usize) -> (s: &'static str)
    requires
        d < 10,
    ensures
        s@ == seq![decimal_digit(d as nat)],
{
    proof {
        reveal_strlit("0");
        reveal_strlit("1");
        reveal_strlit("2");
        reveal_strlit("3");
        reveal_strlit("4");
        reveal_strlit("5");
        reveal_strlit("6");
        reveal_strlit("7");
        reveal_strlit("8");
        reveal_strlit("9");
    }
    let s: &'static str = if d == 0 {
        "0"
    } else if d == 1 {
        "1"
    } else if d == 2 {
        "2"
    } else if d == 3 {
        "3"
    } else if d == 4 {
        "4"
    } else if d == 5 {
        "5"
    } else if d == 6 {
        "6"
    } else if d == 7 {
        "7"
    } else if d == 8 {
        "8"
    } else {
        "9"
    };
    proof {
        assert(s@ =~= seq![decimal_digit(d as nat)]);
    }
    s
}

fn push_decimal(n: usize, out: &mut String)
    ensures
        final(out)@ == old(out)@ + decimal_text(n as nat),
    decreases n,
{
    if n >= 10 {
        push_decimal(n / 10, out);
    }
    out.append(digit_str(n % 10));
    proof {
        assert(out@ =~= old(out)@ + decimal_text(n as nat));
    }
}

/// The label of a split axis, as the shape dump writes it after a node's
/// split value.
pub fn dimension_label(dim: usize) -> (s: String)
    ensures
        s@ == axis_label_text(dim as nat),
{
    if dim == 0 {
        String::from_str("x")
    } else if dim == 1 {
        String::from_str("y")
    } else if dim == 2 {
        String::from_str("z")
    } else if dim == 3 {
        String::from_str("w")
    } else {
        let mut s = String::from_str("x");
        push_decimal(dim, &mut s);
        s
    }
}

} // verus!
