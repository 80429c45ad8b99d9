//! Numbers as text.

use vstd::prelude::*;
use vstd::string::{StrSliceExecFns, StringExecFns};

verus! {

/// The decimal digit `d`, for `d` below ten.
pub open spec fn digit(d: nat) -> char {
    ('0' as nat + d) as char
}

/// `n` in decimal digits, without leading zeros.
pub open spec fn decimal(n: nat) -> Seq<char>
    decreases n,
{
    if n < 10 {
        seq![digit(n)]
    } else {
        decimal(n / 10).push(digit(n % 10))
    }
}

/// `s`, with blanks put before it where it is shorter than `width`.
pub open spec fn right_aligned(s: Seq<char>, width: nat) -> Seq<char> {
    if s.len() < width {
        Seq::new((width - s.len()) as nat, |i: int| ' ') + s
    } else {
        s
    }
}

/// The decimal digit `d`.
fn digit_text(d: u64) -> (s: &'static str)
    requires
        d < 10,
    ensures
        s@ == seq![digit(d as nat)],
{
    proof {
        reveal_strlit("0");
        reveal_strlit("1");
        reveal_strlit("2");
        reveal_strlit("3");
        reveal_strlit("4");
        reveal_strlit("5");
        reveal_strlit("6");
        reveal_strlit("7");
        reveal_strlit("8");
        reveal_strlit("9");
    }
    let s: &'static str = match d {
        0 => "0",
        1 => "1",
        2 => "2",
        3 => "3",
        4 => "4",
        5 => "5",
        6 => "6",
        7 => "7",
        8 => "8",
        _ => "9",
    };
    assert(s@ =~= seq![digit(d as nat)]);
    s
}

/// `n` in decimal digits.
fn format_decimal(n: u64) -> (s: String)
    ensures
        s@ == decimal(n as nat),
    decreases n,
{
    if n < 10 {
        String::from_str(digit_text(n))
    } else {
        let mut s: String = format_decimal(n / 10);
        s.append(digit_text(n % 10));
        assert(s@ =~= decimal(n as nat));
        s
    }
}

/// `n` in decimal, right-aligned in `width` columns.
pub fn format_right(n: u64, width: usize) -> (s: String)
    ensures
        s@ == right_aligned(decimal(n as nat), width as nat),
{
    let digits: String = format_decimal(n);
    let length: usize = digits.as_str().unicode_len();
    let blanks: usize = if length < width { width - length } else { 0 };
    let mut s: String = String::new();
    proof {
        reveal_strlit(" ");
    }
    for i in 0..blanks
        invariant
            s@ == Seq::new(i as nat, |k: int| ' '),
            " "@ == seq![' '],
    {
        s.append(" ");
        assert(s@ =~= Seq::new((i + 1) as nat, |k: int| ' '));
    }
    s.append(digits.as_str());
    assert(s@ =~= right_aligned(decimal(n as nat), width as nat));
    s
}

} // verus!
