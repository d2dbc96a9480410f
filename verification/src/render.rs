//! Decimal rendering of ids, fixed-point amounts and flags.
//!
//! Amounts are rendered with their integer part, a dot, and the four
//! decimal places with trailing zeros trimmed down to at least one
//! digit: `251100` becomes `25.11`, `0` becomes `0.0`. This is a
//! stable rule: equal stored values always render to the same text.

use vstd::prelude::*;
use vstd::string::StringExecFns;

verus! {

/// The character of one decimal digit.
pub open spec fn digit_char(d: int) -> char {
    if d == 0 {
        '0'
    } else if d == 1 {
        '1'
    } else if d == 2 {
        '2'
    } else if d == 3 {
        '3'
    } else if d == 4 {
        '4'
    } else if d == 5 {
        '5'
    } else if d == 6 {
        '6'
    } else if d == 7 {
        '7'
    } else if d == 8 {
        '8'
    } else {
        '9'
    }
}

/// The decimal digits of `n`, most significant first, with no leading
/// zeros (`0` renders as a single `0`).
pub open spec fn spec_digits(n: nat) -> Seq<char>
    decreases n,
{
    if n < 10 {
        seq![digit_char(n as int)]
    } else {
        spec_digits(n / 10) + seq![digit_char((n % 10) as int)]
    }
}

/// `s` with trailing `0` characters removed, keeping at least one
/// character.
pub open spec fn trim_trailing_zeros(s: Seq<char>) -> Seq<char>
    decreases s.len(),
{
    if s.len() > 1 && s.last() == '0' {
        trim_trailing_zeros(s.drop_last())
    } else {
        s
    }
}

/// The four decimal places of `f` (to be read under `0 <= f < 10000`),
/// most significant first, zero padded.
pub open spec fn frac_digits4(f: int) -> Seq<char> {
    seq![
        digit_char(f / 1000 % 10),
        digit_char(f / 100 % 10),
        digit_char(f / 10 % 10),
        digit_char(f % 10),
    ]
}

/// The text of a fixed-point amount: optional sign, integer part, a
/// dot, and the trimmed decimal places.
pub open spec fn spec_amount_str(v: int) -> Seq<char> {
    let mag = if v < 0 {
        -v
    } else {
        v
    };
    let sign: Seq<char> = if v < 0 {
        seq!['-']
    } else {
        Seq::empty()
    };
    sign + spec_digits((mag / 10000) as nat) + seq!['.'] + trim_trailing_zeros(
        frac_digits4(mag % 10000),
    )
}

/// The text of a lock flag.
pub open spec fn spec_bool_str(b: bool) -> Seq<char> {
    if b {
        "true"@
    } else {
        "false"@
    }
}

/// The one-character string of a decimal digit.
fn digit_str(d: u64) -> (r: &'static str)
    requires
        d < 10,
    ensures
        r@ == seq![digit_char(d as int)],
{
    proof {
        reveal_strlit("0");
        reveal_strlit("1");
        reveal_strlit("2");
        reveal_strlit("3");
        reveal_strlit("4");
        reveal_strlit("5");
        reveal_strlit("6");
        reveal_strlit("7");
        reveal_strlit("8");
        reveal_strlit("9");
    }
    let r: &'static str = if d == 0 {
        "0"
    } else if d == 1 {
        "1"
    } else if d == 2 {
        "2"
    } else if d == 3 {
        "3"
    } else if d == 4 {
        "4"
    } else if d == 5 {
        "5"
    } else if d == 6 {
        "6"
    } else if d == 7 {
        "7"
    } else if d == 8 {
        "8"
    } else {
        "9"
    };
    proof {
        assert(r@ =~= seq![digit_char(d as int)]);
    }
    r
}

/// Render an unsigned number in decimal.
pub fn u64_string(n: u64) -> (r: String)
    ensures
        r@ == spec_digits(n as nat),
    decreases n,
{
    if n < 10 {
        digit_str(n).to_owned()
    } else {
        let prefix = u64_string(n / 10);
        prefix.concat(digit_str(n % 10))
    }
}

/// Render the four decimal places of `frac`, trailing zeros trimmed.
fn frac_string(frac: u64) -> (r: String)
    requires
        frac < 10000,
    ensures
        r@ == trim_trailing_zeros(frac_digits4(frac as int)),
{
    let d3 = frac / 1000;
    let d2 = (frac / 100) % 10;
    let d1 = (frac / 10) % 10;
    let d0 = frac % 10;
    let mut out = String::new();
    out.append(digit_str(d3));
    if d2 != 0 || d1 != 0 || d0 != 0 {
        out.append(digit_str(d2));
    }
    if d1 != 0 || d0 != 0 {
        out.append(digit_str(d1));
    }
    if d0 != 0 {
        out.append(digit_str(d0));
    }
    proof {
        let f = frac as int;
        let full = frac_digits4(f);
        let take3 = full.drop_last();
        let take2 = take3.drop_last();
        let take1 = take2.drop_last();
        assert(take3 =~= seq![
            digit_char(f / 1000 % 10),
            digit_char(f / 100 % 10),
            digit_char(f / 10 % 10),
        ]);
        assert(take2 =~= seq![digit_char(f / 1000 % 10), digit_char(f / 100 % 10)]);
        assert(take1 =~= seq![digit_char(f / 1000 % 10)]);
        if d0 != 0 {
            assert(trim_trailing_zeros(full) == full);
            assert(out@ =~= full);
        } else if d1 != 0 {
            assert(trim_trailing_zeros(full) == trim_trailing_zeros(take3));
            assert(trim_trailing_zeros(take3) == take3);
            assert(out@ =~= take3);
        } else if d2 != 0 {
            assert(trim_trailing_zeros(full) == trim_trailing_zeros(take3));
            assert(trim_trailing_zeros(take3) == trim_trailing_zeros(take2));
            assert(trim_trailing_zeros(take2) == take2);
            assert(out@ =~= take2);
        } else {
            assert(trim_trailing_zeros(full) == trim_trailing_zeros(take3));
            assert(trim_trailing_zeros(take3) == trim_trailing_zeros(take2));
            assert(trim_trailing_zeros(take2) == trim_trailing_zeros(take1));
            assert(trim_trailing_zeros(take1) == take1);
            assert(out@ =~= take1);
        }
    }
    out
}

/// Render a fixed-point amount (ten-thousandths) in decimal.
pub fn amount_string(v: i64) -> (r: String)
    ensures
        r@ == spec_amount_str(v as int),
{
    let mag: u64 = if v >= 0 {
        v as u64
    } else {
        (-(v as i128)) as u64
    };
    proof {
        assert(mag as int == if v < 0 {
            -(v as int)
        } else {
            v as int
        });
    }
    let mut out = String::new();
    if v < 0 {
        out.append("-");
    }
    let int_part = u64_string(mag / 10000);
    out.append(int_part.as_str());
    out.append(".");
    let frac_part = frac_string(mag % 10000);
    out.append(frac_part.as_str());
    proof {
        reveal_strlit("-");
        reveal_strlit(".");
        assert("-"@ =~= seq!['-']);
        assert("."@ =~= seq!['.']);
        assert(out@ =~= spec_amount_str(v as int));
    }
    out
}

/// Render a client id in decimal.
pub fn client_string(c: u16) -> (r: String)
    ensures
        r@ == spec_digits(c as nat),
{
    u64_string(c as u64)
}

/// Render a lock flag.
pub fn bool_string(b: bool) -> (r: &'static str)
    ensures
        r@ == spec_bool_str(b),
{
    if b {
        "true"
    } else {
        "false"
    }
}

} // verus!
