//! Decimal text rendering for the parameter display surface.
//!
//! The host shows each parameter as a short string; the numeric part is
//! plain base-ten.  The specification-level shape of such a string is the
//! recursive digit sequence [`spec_digits`]; the executable builders are
//! proved to produce exactly that sequence.

use vstd::prelude::*;

verus! {

/// The character for one decimal digit.
pub open spec fn spec_digit(d: int) -> char {
    if d == 0 {
        '0'
    } else if d == 1 {
        '1'
    } else if d == 2 {
        '2'
    } else if d == 3 {
        '3'
    } else if d == 4 {
        '4'
    } else if d == 5 {
        '5'
    } else if d == 6 {
        '6'
    } else if d == 7 {
        '7'
    } else if d == 8 {
        '8'
    } else {
        '9'
    }
}

/// The base-ten digits of `n`, most significant first, no leading zeros
/// (a single `'0'` for zero).
pub open spec fn spec_digits(n: nat) -> Seq<char>
    decreases n,
{
    if n < 10 {
        seq![spec_digit(n as int)]
    } else {
        spec_digits(n / 10).push(spec_digit((n % 10) as int))
    }
}

/// The base-ten rendering of a signed number: a leading `'-'` before the
/// digits of the magnitude when negative.
pub open spec fn spec_signed_digits(i: int) -> Seq<char> {
    if i < 0 {
        seq!['-'] + spec_digits((-i) as nat)
    } else {
        spec_digits(i as nat)
    }
}

/// Exactly `width` base-ten digits of `n`, most significant first,
/// zero-padded on the left; only the lowest `width` digits of `n` appear.
pub open spec fn spec_padded_digits(n: nat, width: nat) -> Seq<char>
    decreases width,
{
    if width == 0 {
        Seq::empty()
    } else {
        spec_padded_digits(n / 10, (width - 1) as nat).push(spec_digit((n % 10) as int))
    }
}

fn digit_str(d: u32) -> (s: &'static str)
    requires
        d < 10,
    ensures
        s@ == seq![spec_digit(d as int)],
{
    proof {
        reveal_strlit("0");
        reveal_strlit("1");
        reveal_strlit("2");
        reveal_strlit("3");
        reveal_strlit("4");
        reveal_strlit("5");
        reveal_strlit("6");
        reveal_strlit("7");
        reveal_strlit("8");
        reveal_strlit("9");
    }
    let s: &'static str = if d == 0 {
        "0"
    } else if d == 1 {
        "1"
    } else if d == 2 {
        "2"
    } else if d == 3 {
        "3"
    } else if d == 4 {
        "4"
    } else if d == 5 {
        "5"
    } else if d == 6 {
        "6"
    } else if d == 7 {
        "7"
    } else if d == 8 {
        "8"
    } else {
        "9"
    };
    proof {
        assert(s@ =~= seq![spec_digit(d as int)]);
    }
    s
}

/// `n` in base ten.
pub fn unsigned_text(n: u32) -> (s: String)
    ensures
        s@ == spec_digits(n as nat),
    decreases n,
{
    if n < 10 {
        String::from_str(digit_str(n))
    } else {
        let mut s = unsigned_text(n / 10);
        s.append(digit_str(n % 10));
        proof {
            assert(s@ =~= spec_digits(n as nat));
        }
        s
    }
}

/// `i` in base ten, with a leading minus sign when negative.
pub fn signed_text(i: i32) -> (s: String)
    ensures
        s@ == spec_signed_digits(i as int),
{
    if i >= 0 {
        unsigned_text(i as u32)
    } else {
        let mut s = String::from_str("-");
        let m = unsigned_text((-(i as i64)) as u32);
        s.append(m.as_str());
        proof {
            reveal_strlit("-");
            assert(s@ =~= spec_signed_digits(i as int));
        }
        s
    }
}

/// The lowest `width` digits of `n`, zero-padded to exactly `width`.
pub fn padded_text(n: u32, width: u32) -> (s: String)
    ensures
        s@ == spec_padded_digits(n as nat, width as nat),
    decreases width,
{
    if width == 0 {
        let s = String::new();
        proof {
            assert(s@ =~= spec_padded_digits(n as nat, 0));
        }
        s
    } else {
        let mut s = padded_text(n / 10, width - 1);
        s.append(digit_str(n % 10));
        proof {
            assert(s@ =~= spec_padded_digits(n as nat, width as nat));
        }
        s
    }
}

/// A normalized value in micro-units rendered as a plain decimal with
/// six fractional digits, e.g. `0.500000`.
pub open spec fn spec_unit_text(x: int) -> Seq<char> {
    spec_digits((x / 1_000_000) as nat) + seq!['.'] + spec_padded_digits(
        (x % 1_000_000) as nat,
        6,
    )
}

/// A normalized value in micro-units as decimal text.
pub fn unit_text(x: u32) -> (s: String)
    ensures
        s@ == spec_unit_text(x as int),
{
    let mut s = unsigned_text(x / 1_000_000);
    s.append(".");
    let frac = padded_text(x % 1_000_000, 6);
    s.append(frac.as_str());
    proof {
        reveal_strlit(".");
        assert(s@ =~= spec_unit_text(x as int));
    }
    s
}

} // verus!
