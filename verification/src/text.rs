//! Decimal rendering of money amounts.
//!
//! Costs are carried as whole cents; the notification shows them as
//! `$<dollars>.<two cent digits>`.

use vstd::prelude::*;
use vstd::string::*;

verus! {

/// The character for one decimal digit (`0 <= d <= 9`).
pub open spec fn digit_char(d: int) -> char {
    if d == 0 {
        '0'
    } else if d == 1 {
        '1'
    } else if d == 2 {
        '2'
    } else if d == 3 {
        '3'
    } else if d == 4 {
        '4'
    } else if d == 5 {
        '5'
    } else if d == 6 {
        '6'
    } else if d == 7 {
        '7'
    } else if d == 8 {
        '8'
    } else {
        '9'
    }
}

/// Decimal representation of a non-negative integer, most significant digit
/// first, with no leading zeros (a single `'0'` for zero).
pub open spec fn dec_rep(n: int) -> Seq<char>
    decreases n,
{
    if n < 10 {
        seq![digit_char(n)]
    } else {
        dec_rep(n / 10).push(digit_char(n % 10))
    }
}

/// The text shown for an amount of `cents`: a dollar sign, the whole dollars,
/// a dot, and exactly two cent digits.
pub open spec fn dollars_text(cents: int) -> Seq<char> {
    seq!['$'] + dec_rep(cents / 100) + seq!['.'] + seq![
        digit_char((cents % 100) / 10),
        digit_char(cents % 10),
    ]
}

fn push_digit(s: &mut String, d: u64)
    requires
        d < 10,
    ensures
        final(s)@ == old(s)@.push(digit_char(d as int)),
{
    if d == 0 {
        proof {
            reveal_strlit("0");
        }
        s.append("0");
    } else if d == 1 {
        proof {
            reveal_strlit("1");
        }
        s.append("1");
    } else if d == 2 {
        proof {
            reveal_strlit("2");
        }
        s.append("2");
    } else if d == 3 {
        proof {
            reveal_strlit("3");
        }
        s.append("3");
    } else if d == 4 {
        proof {
            reveal_strlit("4");
        }
        s.append("4");
    } else if d == 5 {
        proof {
            reveal_strlit("5");
        }
        s.append("5");
    } else if d == 6 {
        proof {
            reveal_strlit("6");
        }
        s.append("6");
    } else if d == 7 {
        proof {
            reveal_strlit("7");
        }
        s.append("7");
    } else if d == 8 {
        proof {
            reveal_strlit("8");
        }
        s.append("8");
    } else {
        proof {
            reveal_strlit("9");
        }
        s.append("9");
    }
    proof {
        assert(s@ =~= old(s)@.push(digit_char(d as int)));
    }
}

/// The decimal digits of `n`, most significant first.
pub fn decimal_digits(n: u64) -> (s: String)
    ensures
        s@ == dec_rep(n as int),
    decreases n,
{
    if n < 10 {
        let mut s = String::new();
        push_digit(&mut s, n);
        proof {
            assert(s@ =~= dec_rep(n as int));
        }
        s
    } else {
        let mut s = decimal_digits(n / 10);
        push_digit(&mut s, n % 10);
        s
    }
}

/// Renders an amount of whole cents as `$<dollars>.<cc>`.
pub fn format_dollars(cents: u64) -> (s: String)
    ensures
        s@ == dollars_text(cents as int),
{
    let mut s = String::from_str("$");
    let digits = decimal_digits(cents / 100);
    s.append(digits.as_str());
    proof {
        reveal_strlit("$");
        reveal_strlit(".");
    }
    s.append(".");
    push_digit(&mut s, (cents % 100) / 10);
    push_digit(&mut s, cents % 10);
    proof {
        assert(s@ =~= dollars_text(cents as int));
    }
    s
}

} // verus!
