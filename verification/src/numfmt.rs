use vstd::prelude::*;

verus! {

use vstd::string::StringExecFns;

/// The decimal digit character for `d` in 0..=9.
pub open spec fn digit_char(d: int) -> char {
    if d == 0 {
        '0'
    } else if d == 1 {
        '1'
    } else if d == 2 {
        '2'
    } else if d == 3 {
        '3'
    } else if d == 4 {
        '4'
    } else if d == 5 {
        '5'
    } else if d == 6 {
        '6'
    } else if d == 7 {
        '7'
    } else if d == 8 {
        '8'
    } else {
        '9'
    }
}

/// Decimal digits of `n`, for 0 <= n <= 999 (scores never exceed 100).
pub open spec fn int_str(n: int) -> Seq<char> {
    if n >= 100 {
        seq![digit_char(n / 100), digit_char((n / 10) % 10), digit_char(n % 10)]
    } else if n >= 10 {
        seq![digit_char(n / 10), digit_char(n % 10)]
    } else {
        seq![digit_char(n)]
    }
}

/// One-decimal rendering of a score held in tenths of a point: 850 -> "85.0".
pub open spec fn tenths_str(t: int) -> Seq<char> {
    int_str(t / 10) + seq!['.'] + seq![digit_char(t % 10)]
}

/// The one-character string for a single decimal digit.
fn digit_piece(d: u64) -> (r: &'static str)
    requires
        d < 10,
    ensures
        r@ == seq![digit_char(d as int)],
{
    let r: &'static str = if d == 0 {
        "0"
    } else if d == 1 {
        "1"
    } else if d == 2 {
        "2"
    } else if d == 3 {
        "3"
    } else if d == 4 {
        "4"
    } else if d == 5 {
        "5"
    } else if d == 6 {
        "6"
    } else if d == 7 {
        "7"
    } else if d == 8 {
        "8"
    } else {
        "9"
    };
    proof {
        reveal_strlit("0");
        reveal_strlit("1");
        reveal_strlit("2");
        reveal_strlit("3");
        reveal_strlit("4");
        reveal_strlit("5");
        reveal_strlit("6");
        reveal_strlit("7");
        reveal_strlit("8");
        reveal_strlit("9");
        assert(r@ =~= seq![digit_char(d as int)]);
    }
    r
}

/// Renders a score held in tenths of a point with one decimal place.
pub fn fmt_tenths(t: u64) -> (r: String)
    requires
        t <= 1000,
    ensures
        r@ == tenths_str(t as int),
{
    let ip = t / 10;
    let fp = t % 10;
    let mut s = String::new();
    if ip >= 100 {
        s.append(digit_piece(ip / 100));
        s.append(digit_piece((ip / 10) % 10));
        s.append(digit_piece(ip % 10));
    } else if ip >= 10 {
        s.append(digit_piece(ip / 10));
        s.append(digit_piece(ip % 10));
    } else {
        s.append(digit_piece(ip));
    }
    s.append(".");
    s.append(digit_piece(fp));
    proof {
        reveal_strlit(".");
        assert(s@ =~= tenths_str(t as int));
    }
    s
}

} // verus!
