//! Parsing the terminal window id out of its three sources.
//!
//! A video player can be asked to present over the terminal's window, which
//! requires its X11 window id. Three sources are probed in order: the
//! `WINDOWID` environment variable (a decimal number), the output of
//! `xdotool getactivewindow` (a decimal number with surrounding whitespace),
//! and the output of `xprop -root _NET_ACTIVE_WINDOW` (a line containing
//! `0x` followed by the id in hex). An id of zero is rejected everywhere;
//! each source failing is non-fatal, the caller just moves to the next.
//!
//! Reading the environment and running the utilities is the embedding
//! program's job; the functions here turn the raw text into an id.

use vstd::prelude::*;
use vstd::string::StrSliceExecFns;

verus! {

/// ASCII whitespace, as it appears in the utilities' output.
pub open spec fn spec_is_space(c: char) -> bool {
    c == ' ' || c == '\t' || c == '\n' || c == '\r'
}

/// A decimal digit.
pub open spec fn spec_is_digit(c: char) -> bool {
    48 <= c as u32 <= 57
}

/// The value of a decimal digit.
pub open spec fn spec_digit_val(c: char) -> int {
    c as u32 - 48
}

/// A hexadecimal digit, either case.
pub open spec fn spec_is_hex_digit(c: char) -> bool {
    spec_is_digit(c) || (97 <= c as u32 <= 102) || (65 <= c as u32 <= 70)
}

/// The value of a hexadecimal digit.
pub open spec fn spec_hex_digit_val(c: char) -> int {
    if spec_is_digit(c) {
        c as u32 - 48
    } else if 97 <= c as u32 <= 102 {
        c as u32 - 87
    } else {
        c as u32 - 55
    }
}

pub open spec fn spec_all_digits(s: Seq<char>) -> bool {
    forall|i: int| 0 <= i < s.len() ==> spec_is_digit(#[trigger] s[i])
}

pub open spec fn spec_all_hex(s: Seq<char>) -> bool {
    forall|i: int| 0 <= i < s.len() ==> spec_is_hex_digit(#[trigger] s[i])
}

/// The number written by the decimal digits `s`, most significant first.
pub open spec fn spec_dec_val(s: Seq<char>) -> int
    decreases s.len(),
{
    if s.len() == 0 {
        0
    } else {
        spec_dec_val(s.drop_last()) * 10 + spec_digit_val(s.last())
    }
}

/// The number written by the hexadecimal digits `s`, most significant first.
pub open spec fn spec_hex_val(s: Seq<char>) -> int
    decreases s.len(),
{
    if s.len() == 0 {
        0
    } else {
        spec_hex_val(s.drop_last()) * 16 + spec_hex_digit_val(s.last())
    }
}

pub proof fn lemma_dec_val_nonneg(s: Seq<char>)
    requires
        spec_all_digits(s),
    ensures
        spec_dec_val(s) >= 0,
    decreases s.len(),
{
    if s.len() > 0 {
        assert(spec_all_digits(s.drop_last()));
        lemma_dec_val_nonneg(s.drop_last());
    }
}

pub proof fn lemma_hex_val_nonneg(s: Seq<char>)
    requires
        spec_all_hex(s),
    ensures
        spec_hex_val(s) >= 0,
    decreases s.len(),
{
    if s.len() > 0 {
        assert(spec_all_hex(s.drop_last()));
        lemma_hex_val_nonneg(s.drop_last());
    }
}

/// Extending a digit string to the right never decreases its value.
pub proof fn lemma_dec_val_prefix_le(s: Seq<char>, j: int)
    requires
        spec_all_digits(s),
        0 <= j <= s.len(),
    ensures
        spec_dec_val(s.take(j)) <= spec_dec_val(s),
    decreases s.len() - j,
{
    if j == s.len() {
        assert(s.take(j) =~= s);
    } else {
        assert(s.take(j + 1).drop_last() =~= s.take(j));
        assert(s.take(j + 1).last() == s[j]);
        assert(spec_all_digits(s.take(j)));
        lemma_dec_val_nonneg(s.take(j));
        lemma_dec_val_prefix_le(s, j + 1);
    }
}

/// Extending a hex-digit string to the right never decreases its value.
pub proof fn lemma_hex_val_prefix_le(s: Seq<char>, j: int)
    requires
        spec_all_hex(s),
        0 <= j <= s.len(),
    ensures
        spec_hex_val(s.take(j)) <= spec_hex_val(s),
    decreases s.len() - j,
{
    if j == s.len() {
        assert(s.take(j) =~= s);
    } else {
        assert(s.take(j + 1).drop_last() =~= s.take(j));
        assert(s.take(j + 1).last() == s[j]);
        assert(spec_all_hex(s.take(j)));
        lemma_hex_val_nonneg(s.take(j));
        lemma_hex_val_prefix_le(s, j + 1);
    }
}

/// Parse an unsigned decimal number: the whole of `s` must be digits, and
/// the value must fit.
pub fn parse_u64_decimal(s: &str) -> (r: Option<u64>)
    ensures
        (r is Some) <==> (s@.len() > 0 && spec_all_digits(s@) && spec_dec_val(s@) <= u64::MAX),
        r matches Some(v) ==> v == spec_dec_val(s@),
{
    let n = s.unicode_len();
    if n == 0 {
        return None;
    }
    let mut acc: u64 = 0;
    let mut i: usize = 0;
    while i < n
        invariant
            n == s@.len(),
            i <= n,
            spec_all_digits(s@.take(i as int)),
            acc == spec_dec_val(s@.take(i as int)),
        decreases n - i,
    {
        let c = s.get_char(i);
        let u = c as u32;
        if u < 48 || u > 57 {
            return None;
        }
        let d = (u - 48) as u64;
        if acc > (u64::MAX - d) / 10 {
            proof {
                assert(acc * 10 + d > u64::MAX) by (nonlinear_arith)
                    requires
                        acc > (u64::MAX - d) / 10,
                        d <= 9,
                ;
                assert(s@.take(i + 1 as int).drop_last() =~= s@.take(i as int));
                assert(s@.take(i + 1 as int).last() == s@[i as int]);
                if spec_all_digits(s@) {
                    lemma_dec_val_prefix_le(s@, i + 1 as int);
                }
            }
            return None;
        }
        proof {
            assert(acc * 10 + d <= u64::MAX) by (nonlinear_arith)
                requires
                    acc <= (u64::MAX - d) / 10,
                    d <= 9,
            ;
            assert(s@.take(i + 1 as int).drop_last() =~= s@.take(i as int));
            assert(s@.take(i + 1 as int).last() == s@[i as int]);
        }
        acc = acc * 10 + d;
        i = i + 1;
    }
    proof {
        assert(s@.take(n as int) =~= s@);
    }
    Some(acc)
}

/// Parse an unsigned hexadecimal number (no `0x` prefix, either case): the
/// whole of `s` must be hex digits, and the value must fit.
pub fn parse_u64_hex(s: &str) -> (r: Option<u64>)
    ensures
        (r is Some) <==> (s@.len() > 0 && spec_all_hex(s@) && spec_hex_val(s@) <= u64::MAX),
        r matches Some(v) ==> v == spec_hex_val(s@),
{
    let n = s.unicode_len();
    if n == 0 {
        return None;
    }
    let mut acc: u64 = 0;
    let mut i: usize = 0;
    while i < n
        invariant
            n == s@.len(),
            i <= n,
            spec_all_hex(s@.take(i as int)),
            acc == spec_hex_val(s@.take(i as int)),
        decreases n - i,
    {
        let c = s.get_char(i);
        let u = c as u32;
        let d: u64 = if 48 <= u && u <= 57 {
            (u - 48) as u64
        } else if 97 <= u && u <= 102 {
            (u - 87) as u64
        } else if 65 <= u && u <= 70 {
            (u - 55) as u64
        } else {
            return None;
        };
        if acc > (u64::MAX - d) / 16 {
            proof {
                assert(acc * 16 + d > u64::MAX) by (nonlinear_arith)
                    requires
                        acc > (u64::MAX - d) / 16,
                        d <= 15,
                ;
                assert(s@.take(i + 1 as int).drop_last() =~= s@.take(i as int));
                assert(s@.take(i + 1 as int).last() == s@[i as int]);
                if spec_all_hex(s@) {
                    lemma_hex_val_prefix_le(s@, i + 1 as int);
                }
            }
            return None;
        }
        proof {
            assert(acc * 16 + d <= u64::MAX) by (nonlinear_arith)
                requires
                    acc <= (u64::MAX - d) / 16,
                    d <= 15,
            ;
            assert(s@.take(i + 1 as int).drop_last() =~= s@.take(i as int));
            assert(s@.take(i + 1 as int).last() == s@[i as int]);
        }
        acc = acc * 16 + d;
        i = i + 1;
    }
    proof {
        assert(s@.take(n as int) =~= s@);
    }
    Some(acc)
}

/// `s` without leading whitespace.
pub open spec fn spec_trim_front(s: Seq<char>) -> Seq<char>
    decreases s.len(),
{
    if s.len() > 0 && spec_is_space(s[0]) {
        spec_trim_front(s.skip(1))
    } else {
        s
    }
}

/// `s` without trailing whitespace.
pub open spec fn spec_trim_back(s: Seq<char>) -> Seq<char>
    decreases s.len(),
{
    if s.len() > 0 && spec_is_space(s.last()) {
        spec_trim_back(s.drop_last())
    } else {
        s
    }
}

/// `s` without leading and trailing whitespace.
pub open spec fn spec_trim(s: Seq<char>) -> Seq<char> {
    spec_trim_back(spec_trim_front(s))
}

proof fn lemma_trim_front_skip(s: Seq<char>, a: int)
    requires
        0 <= a <= s.len(),
        forall|i: int| 0 <= i < a ==> spec_is_space(#[trigger] s[i]),
    ensures
        spec_trim_front(s) == spec_trim_front(s.skip(a)),
    decreases a,
{
    if a > 0 {
        assert(s.skip(1).skip(a - 1) =~= s.skip(a));
        lemma_trim_front_skip(s.skip(1), a - 1);
    } else {
        assert(s.skip(0) =~= s);
    }
}

proof fn lemma_trim_back_take(s: Seq<char>, b: int)
    requires
        0 <= b <= s.len(),
        forall|i: int| b <= i < s.len() ==> spec_is_space(#[trigger] s[i]),
        b == 0 || !spec_is_space(s[b - 1]),
    ensures
        spec_trim_back(s) == s.take(b),
    decreases s.len() - b,
{
    if b == s.len() {
        if s.len() > 0 {
            assert(!spec_is_space(s.last()));
        }
        assert(s.take(b) =~= s);
    } else {
        assert(spec_is_space(s.last()));
        assert(s.drop_last() =~= s.take(s.len() - 1));
        lemma_trim_back_take(s.take(s.len() - 1), b);
        assert(s.take(s.len() - 1).take(b) =~= s.take(b));
    }
}

/// `s` trimmed, computed with its witnesses: the result is
/// `s@.subrange(a, e)` for the first non-space index `a` and one past the
/// last non-space index `e`.
fn trim_str<'a>(s: &'a str) -> (r: &'a str)
    ensures
        r@ == spec_trim(s@),
{
    let n = s.unicode_len();
    let mut a: usize = 0;
    loop
        invariant
            n == s@.len(),
            a <= n,
            forall|i: int| 0 <= i < a ==> spec_is_space(#[trigger] s@[i]),
        ensures
            a <= n,
            forall|i: int| 0 <= i < a ==> spec_is_space(#[trigger] s@[i]),
            a == n || !spec_is_space(s@[a as int]),
        decreases n - a,
    {
        if a >= n {
            break;
        }
        let c = s.get_char(a);
        if !(c == ' ' || c == '\t' || c == '\n' || c == '\r') {
            break;
        }
        a = a + 1;
    }
    proof {
        lemma_trim_front_skip(s@, a as int);
        if a < n {
            assert(!spec_is_space(s@.skip(a as int)[0]));
        }
        assert(spec_trim_front(s@) == s@.skip(a as int));
    }
    let mut e: usize = n;
    loop
        invariant
            n == s@.len(),
            a <= e <= n,
            forall|i: int| e <= i < n ==> spec_is_space(#[trigger] s@[i]),
        ensures
            a <= e <= n,
            forall|i: int| e <= i < n ==> spec_is_space(#[trigger] s@[i]),
            e == a || !spec_is_space(s@[e - 1]),
        decreases e,
    {
        if e <= a {
            break;
        }
        let c = s.get_char(e - 1);
        if !(c == ' ' || c == '\t' || c == '\n' || c == '\r') {
            break;
        }
        e = e - 1;
    }
    let r = s.substring_char(a, e);
    proof {
        let tail = s@.skip(a as int);
        lemma_trim_back_take(tail, e - a as int);
        assert(tail.take(e - a as int) =~= s@.subrange(a as int, e as int));
        assert(r@ == spec_trim(s@));
    }
    r
}

/// The window id read from text that must be nothing but the decimal id:
/// all digits, in range, and nonzero (zero means "no window").
pub open spec fn spec_decimal_window_id(s: Seq<char>) -> Option<u64> {
    if s.len() > 0 && spec_all_digits(s) && 0 < spec_dec_val(s) <= u64::MAX {
        Some(spec_dec_val(s) as u64)
    } else {
        None
    }
}

/// The window id from the `WINDOWID` environment variable: the whole value
/// must be the decimal id, and zero is rejected as invalid.
pub fn window_id_from_var(s: &str) -> (r: Option<u64>)
    ensures
        r == spec_decimal_window_id(s@),
{
    match parse_u64_decimal(s) {
        Some(w) if w > 0 => Some(w),
        _ => None,
    }
}

/// The window id from `xdotool getactivewindow` output: the decimal id with
/// whitespace around it; zero is rejected as invalid.
pub fn window_id_from_xdotool(s: &str) -> (r: Option<u64>)
    ensures
        r == spec_decimal_window_id(spec_trim(s@)),
{
    let t = trim_str(s);
    match parse_u64_decimal(t) {
        Some(w) if w > 0 => Some(w),
        _ => None,
    }
}

/// The position of the first `0x` in `s`.
pub open spec fn spec_find_0x(s: Seq<char>) -> Option<int>
    decreases s.len(),
{
    if s.len() < 2 {
        None
    } else if s[0] == '0' && s[1] == 'x' {
        Some(0)
    } else {
        match spec_find_0x(s.skip(1)) {
            Some(j) => Some(j + 1),
            None => None,
        }
    }
}

proof fn lemma_find_0x_skip(s: Seq<char>, a: int)
    requires
        0 <= a,
        a + 1 <= s.len(),
        forall|i: int| 0 <= i < a ==> !((#[trigger] s[i]) == '0' && s[i + 1] == 'x'),
    ensures
        spec_find_0x(s) == (match spec_find_0x(s.skip(a)) {
            Some(j) => Some(j + a),
            None => None,
        }),
    decreases a,
{
    if a > 0 {
        assert(s.skip(1).skip(a - 1) =~= s.skip(a));
        assert(forall|i: int|
            0 <= i < a - 1 ==> !((#[trigger] s.skip(1)[i]) == '0' && s.skip(1)[i + 1] == 'x'));
        lemma_find_0x_skip(s.skip(1), a - 1);
    } else {
        assert(s.skip(0) =~= s);
    }
}

/// `s` with everything up to and including the first `0x` removed; `None`
/// when there is no `0x`.
pub open spec fn spec_after_0x(s: Seq<char>) -> Option<Seq<char>> {
    match spec_find_0x(s) {
        Some(i) => Some(s.skip(i + 2)),
        None => None,
    }
}

/// The first whitespace-separated token of `s`.
pub open spec fn spec_first_token(s: Seq<char>) -> Seq<char> {
    spec_take_until_space(spec_trim_front(s))
}

/// The longest non-whitespace prefix of `s`.
pub open spec fn spec_take_until_space(s: Seq<char>) -> Seq<char>
    decreases s.len(),
{
    if s.len() > 0 && !spec_is_space(s[0]) {
        seq![s[0]] + spec_take_until_space(s.skip(1))
    } else {
        Seq::empty()
    }
}

proof fn lemma_take_until_space_range(s: Seq<char>, b: int)
    requires
        0 <= b <= s.len(),
        forall|i: int| 0 <= i < b ==> !spec_is_space(#[trigger] s[i]),
        b == s.len() || spec_is_space(s[b]),
    ensures
        spec_take_until_space(s) == s.take(b),
    decreases b,
{
    if b == 0 {
        assert(s.take(0) =~= Seq::<char>::empty());
    } else {
        assert(s.skip(1).take(b - 1) =~= s.take(b).skip(1));
        lemma_take_until_space_range(s.skip(1), b - 1);
        assert(seq![s[0]] + s.skip(1).take(b - 1) =~= s.take(b));
    }
}

/// The first whitespace-separated token of `s`, as a substring.
fn first_token<'a>(s: &'a str) -> (r: &'a str)
    ensures
        r@ == spec_first_token(s@),
{
    let n = s.unicode_len();
    let mut a: usize = 0;
    loop
        invariant
            n == s@.len(),
            a <= n,
            forall|i: int| 0 <= i < a ==> spec_is_space(#[trigger] s@[i]),
        ensures
            a <= n,
            forall|i: int| 0 <= i < a ==> spec_is_space(#[trigger] s@[i]),
            a == n || !spec_is_space(s@[a as int]),
        decreases n - a,
    {
        if a >= n {
            break;
        }
        let c = s.get_char(a);
        if !(c == ' ' || c == '\t' || c == '\n' || c == '\r') {
            break;
        }
        a = a + 1;
    }
    proof {
        lemma_trim_front_skip(s@, a as int);
        if a < n {
            assert(!spec_is_space(s@.skip(a as int)[0]));
        }
        assert(spec_trim_front(s@) == s@.skip(a as int));
    }
    let mut b: usize = a;
    loop
        invariant
            n == s@.len(),
            a <= b <= n,
            forall|i: int| a <= i < b ==> !spec_is_space(#[trigger] s@[i]),
        ensures
            a <= b <= n,
            forall|i: int| a <= i < b ==> !spec_is_space(#[trigger] s@[i]),
            b == n || spec_is_space(s@[b as int]),
        decreases n - b,
    {
        if b >= n {
            break;
        }
        let c = s.get_char(b);
        if c == ' ' || c == '\t' || c == '\n' || c == '\r' {
            break;
        }
        b = b + 1;
    }
    let r = s.substring_char(a, b);
    proof {
        let tail = s@.skip(a as int);
        assert(forall|i: int| 0 <= i < b - a ==> !spec_is_space(#[trigger] tail[i]));
        lemma_take_until_space_range(tail, b - a as int);
        assert(tail.take(b - a as int) =~= s@.subrange(a as int, b as int));
        assert(r@ == spec_first_token(s@));
    }
    r
}

/// The window id read out of `xprop -root _NET_ACTIVE_WINDOW` output: the
/// first whitespace-separated token after the first `0x`, as a nonzero hex
/// number.
pub open spec fn spec_xprop_window_id(s: Seq<char>) -> Option<u64> {
    match spec_after_0x(s) {
        None => None,
        Some(rest) => {
            let tok = spec_first_token(rest);
            if tok.len() > 0 && spec_all_hex(tok) && 0 < spec_hex_val(tok) <= u64::MAX {
                Some(spec_hex_val(tok) as u64)
            } else {
                None
            }
        },
    }
}

/// The window id from `xprop -root _NET_ACTIVE_WINDOW` output.
pub fn window_id_from_xprop(s: &str) -> (r: Option<u64>)
    ensures
        r == spec_xprop_window_id(s@),
{
    let n = s.unicode_len();
    if n < 2 {
        proof {
            assert(spec_find_0x(s@) is None);
        }
        return None;
    }
    let mut a: usize = 0;
    let mut found = false;
    loop
        invariant_except_break
            !found,
        invariant
            n == s@.len(),
            2 <= n,
            a < n,
            forall|i: int| 0 <= i < a ==> !((#[trigger] s@[i]) == '0' && s@[i + 1] == 'x'),
        ensures
            a < n,
            forall|i: int| 0 <= i < a ==> !((#[trigger] s@[i]) == '0' && s@[i + 1] == 'x'),
            found ==> a + 1 < n && s@[a as int] == '0' && s@[a as int + 1] == 'x',
            !found ==> a + 1 >= n,
        decreases n - a,
    {
        if a + 1 >= n {
            break;
        }
        let c0 = s.get_char(a);
        if c0 == '0' {
            let c1 = s.get_char(a + 1);
            if c1 == 'x' {
                found = true;
                break;
            }
        }
        a = a + 1;
    }
    if !found {
        proof {
            lemma_find_0x_skip(s@, a as int);
            assert(s@.skip(a as int).len() < 2);
        }
        return None;
    }
    proof {
        lemma_find_0x_skip(s@, a as int);
        assert(s@.skip(a as int)[0] == s@[a as int]);
        assert(s@.skip(a as int)[1] == s@[a as int + 1]);
        assert(spec_find_0x(s@.skip(a as int)) == Some(0int));
        assert(spec_find_0x(s@) == Some(a as int));
        assert(s@.skip(a as int).skip(2) =~= s@.skip(a + 2 as int));
    }
    let rest = s.substring_char(a + 2, n);
    proof {
        assert(rest@ =~= s@.skip(a + 2 as int));
    }
    let tok = first_token(rest);
    match parse_u64_hex(tok) {
        Some(w) if w > 0 => Some(w),
        _ => None,
    }
}

} // verus!
