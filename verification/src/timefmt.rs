//! Decimal rendering of durations and clock readouts.
//!
//! Positions and durations are carried as whole milliseconds; the readouts
//! show whole seconds, as a `M:SS` or `MM:SS` clock.

use vstd::prelude::*;
use vstd::string::StringExecFns;

verus! {

/// The character for a single decimal digit.
pub open spec fn spec_digit_char(d: int) -> char {
    if d == 0 {
        '0'
    } else if d == 1 {
        '1'
    } else if d == 2 {
        '2'
    } else if d == 3 {
        '3'
    } else if d == 4 {
        '4'
    } else if d == 5 {
        '5'
    } else if d == 6 {
        '6'
    } else if d == 7 {
        '7'
    } else if d == 8 {
        '8'
    } else {
        '9'
    }
}

/// The decimal digits of `n`, most significant first, no leading zeros
/// (a single `'0'` for zero).
pub open spec fn spec_dec(n: nat) -> Seq<char>
    decreases n,
{
    if n < 10 {
        seq![spec_digit_char(n as int)]
    } else {
        spec_dec(n / 10).push(spec_digit_char((n % 10) as int))
    }
}

/// `n` in decimal, zero-padded on the left to at least two digits.
pub open spec fn spec_pad2(n: nat) -> Seq<char> {
    if n < 10 {
        seq!['0'] + spec_dec(n)
    } else {
        spec_dec(n)
    }
}

/// A clock readout `M:SS`: minutes unpadded, seconds padded to two digits.
pub open spec fn spec_clock(total_seconds: nat) -> Seq<char> {
    spec_dec(total_seconds / 60) + seq![':'] + spec_pad2(total_seconds % 60)
}

/// A clock readout `MM:SS`: minutes and seconds both padded to two digits.
pub open spec fn spec_clock_padded(total_seconds: nat) -> Seq<char> {
    spec_pad2(total_seconds / 60) + seq![':'] + spec_pad2(total_seconds % 60)
}

fn digit_string(d: u64) -> (r: String)
    requires
        d < 10,
    ensures
        r@ == seq![spec_digit_char(d as int)],
{
    proof {
        reveal_strlit("0");
        reveal_strlit("1");
        reveal_strlit("2");
        reveal_strlit("3");
        reveal_strlit("4");
        reveal_strlit("5");
        reveal_strlit("6");
        reveal_strlit("7");
        reveal_strlit("8");
        reveal_strlit("9");
    }
    let s: &str = if d == 0 {
        "0"
    } else if d == 1 {
        "1"
    } else if d == 2 {
        "2"
    } else if d == 3 {
        "3"
    } else if d == 4 {
        "4"
    } else if d == 5 {
        "5"
    } else if d == 6 {
        "6"
    } else if d == 7 {
        "7"
    } else if d == 8 {
        "8"
    } else {
        "9"
    };
    let r = s.to_owned();
    proof {
        assert(r@ =~= seq![spec_digit_char(d as int)]);
    }
    r
}

/// Render `n` in decimal.
pub fn u64_to_dec(n: u64) -> (r: String)
    ensures
        r@ == spec_dec(n as nat),
    decreases n,
{
    if n < 10 {
        digit_string(n)
    } else {
        let mut r = u64_to_dec(n / 10);
        let d = digit_string(n % 10);
        r.append(d.as_str());
        proof {
            assert(r@ =~= spec_dec(n as nat));
        }
        r
    }
}

/// Render `n` in decimal, zero-padded to at least two digits.
pub fn u64_to_pad2(n: u64) -> (r: String)
    ensures
        r@ == spec_pad2(n as nat),
{
    if n < 10 {
        let mut r = "0".to_owned();
        let d = digit_string(n);
        r.append(d.as_str());
        proof {
            reveal_strlit("0");
            assert(r@ =~= spec_pad2(n as nat));
        }
        r
    } else {
        u64_to_dec(n)
    }
}

/// A signed value in decimal.
pub open spec fn spec_dec_signed(n: int) -> Seq<char> {
    if n >= 0 {
        spec_dec(n as nat)
    } else {
        seq!['-'] + spec_dec((-n) as nat)
    }
}

/// Render a signed value in decimal.
pub fn i64_to_dec(n: i64) -> (r: String)
    ensures
        r@ == spec_dec_signed(n as int),
{
    if n >= 0 {
        u64_to_dec(n as u64)
    } else {
        let mag: u64 = ((-(n + 1)) as u64) + 1;
        let mut r = "-".to_owned();
        let digits = u64_to_dec(mag);
        r.append(digits.as_str());
        proof {
            reveal_strlit("-");
            assert(r@ =~= spec_dec_signed(n as int));
        }
        r
    }
}

/// `MM:SS` readout of a duration given in milliseconds, both parts
/// zero-padded to two digits.
pub fn format_duration(duration_ms: u64) -> (r: String)
    ensures
        r@ == spec_clock_padded((duration_ms / 1000) as nat),
{
    let total_seconds = duration_ms / 1000;
    let mut r = u64_to_pad2(total_seconds / 60);
    r.append(":");
    let sec = u64_to_pad2(total_seconds % 60);
    r.append(sec.as_str());
    proof {
        reveal_strlit(":");
        assert(r@ =~= spec_clock_padded((duration_ms / 1000) as nat));
    }
    r
}

/// `M:SS` readout of a duration given in milliseconds, seconds zero-padded
/// to two digits.
pub fn format_clock(duration_ms: u64) -> (r: String)
    ensures
        r@ == spec_clock((duration_ms / 1000) as nat),
{
    let total_seconds = duration_ms / 1000;
    let mut r = u64_to_dec(total_seconds / 60);
    r.append(":");
    let sec = u64_to_pad2(total_seconds % 60);
    r.append(sec.as_str());
    proof {
        reveal_strlit(":");
        assert(r@ =~= spec_clock((duration_ms / 1000) as nat));
    }
    r
}

} // verus!
