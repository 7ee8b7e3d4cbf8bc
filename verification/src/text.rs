//! Rendering of plain values as text.
//!
//! Integer values render as their decimal digits; lists of names join
//! with a comma and a space. Both renderings are fixed here by spec
//! functions that the display methods of the model types refer to.

use vstd::prelude::*;

verus! {

/// The decimal digit character for `d`.
pub open spec fn spec_digit_char(d: int) -> char {
    if d == 0 {
        '0'
    } else if d == 1 {
        '1'
    } else if d == 2 {
        '2'
    } else if d == 3 {
        '3'
    } else if d == 4 {
        '4'
    } else if d == 5 {
        '5'
    } else if d == 6 {
        '6'
    } else if d == 7 {
        '7'
    } else if d == 8 {
        '8'
    } else {
        '9'
    }
}

/// The decimal digits of `n`, most significant first.
pub open spec fn spec_nat_text(n: nat) -> Seq<char>
    decreases n,
{
    if n < 10 {
        seq![spec_digit_char(n as int)]
    } else {
        spec_nat_text(n / 10).push(spec_digit_char((n % 10) as int))
    }
}

/// The decimal rendering of the integer `v`: its digits, preceded by
/// a minus sign when `v` is negative.
pub open spec fn spec_int_text(v: int) -> Seq<char> {
    if v >= 0 {
        spec_nat_text(v as nat)
    } else {
        seq!['-'] + spec_nat_text((-v) as nat)
    }
}

/// The one-character text of the decimal digit `d`.
fn digit_str(d: u64) -> (s: &'static str)
    requires
        d < 10,
    ensures
        s@ =~= seq![spec_digit_char(d as int)],
{
    proof {
        reveal_strlit("0");
        reveal_strlit("1");
        reveal_strlit("2");
        reveal_strlit("3");
        reveal_strlit("4");
        reveal_strlit("5");
        reveal_strlit("6");
        reveal_strlit("7");
        reveal_strlit("8");
        reveal_strlit("9");
    }
    if d == 0 {
        "0"
    } else if d == 1 {
        "1"
    } else if d == 2 {
        "2"
    } else if d == 3 {
        "3"
    } else if d == 4 {
        "4"
    } else if d == 5 {
        "5"
    } else if d == 6 {
        "6"
    } else if d == 7 {
        "7"
    } else if d == 8 {
        "8"
    } else {
        "9"
    }
}

/// Renders `n` as its decimal digits.
pub fn nat_text(n: u64) -> (s: String)
    ensures
        s@ == spec_nat_text(n as nat),
    decreases n,
{
    if n < 10 {
        String::from_str(digit_str(n))
    } else {
        let mut s = nat_text(n / 10);
        s.append(digit_str(n % 10));
        proof {
            assert(spec_nat_text((n / 10) as nat).push(spec_digit_char((n % 10) as int))
                =~= spec_nat_text((n / 10) as nat) + seq![spec_digit_char((n % 10) as int)]);
        }
        s
    }
}

/// Renders the integer `v` as decimal text.
pub fn int_text(v: i64) -> (s: String)
    ensures
        s@ == spec_int_text(v as int),
{
    if v >= 0 {
        nat_text(v as u64)
    } else {
        let wide: i128 = -(v as i128);
        let mag: u64 = wide as u64;
        proof {
            assert(mag as nat == (-(v as int)) as nat);
            reveal_strlit("-");
        }
        let mut s = String::from_str("-");
        let digits = nat_text(mag);
        s.append(digits.as_str());
        proof {
            assert(seq!['-'] =~= "-"@);
        }
        s
    }
}

/// The elements of `parts` joined with a comma and a space.
pub open spec fn spec_join_comma(parts: Seq<Seq<char>>) -> Seq<char>
    decreases parts.len(),
{
    if parts.len() == 0 {
        Seq::empty()
    } else if parts.len() == 1 {
        parts[0]
    } else {
        spec_join_comma(parts.drop_last()) + ", "@ + parts.last()
    }
}

} // verus!
