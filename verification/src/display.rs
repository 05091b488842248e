//! Display helpers: cleaning text of carriage returns, escape sequences and
//! control characters, truncating and padding to a display width.
use vstd::prelude::*;
use crate::text::{
    cell_width, char_width, chars_of, concat, decimal, digit_char, is_control, is_control_spec, spaces,
    str_width, str_width_of, string_from_chars, u128_to_string,
};

verus! {

/// The pattern of ANSI escape sequences: CSI sequences, OSC sequences
/// ended by BEL or ESC `\`, and two-character escapes.
pub const ANSI_PATTERN: &'static str = r"\x1b\[[0-9;]*[a-zA-Z]|\x1b\][^\x07]*\x07|\x1b\][^\x1b]*\x1b\\|\x1b.";

/// What `Regex::new(pattern)` followed by `replace_all(text, replacement)`
/// returns: `None` when the pattern does not compile.
pub uninterp spec fn regex_replaced(pattern: Seq<char>, text: Seq<char>, replacement: Seq<char>) -> Option<Seq<char>>;

/// Compiles `pattern` with `regex::Regex::new` and replaces every match in
/// `text` with `replacement` (`Regex::replace_all`). The result is the named
/// outcome of those two calls; nothing more is claimed of it.
#[verifier::external_body]
fn regex_replace_all(pattern: &str, text: &str, replacement: &str) -> (r: Option<String>)
    ensures
        match r {
            Some(t) => regex_replaced(pattern@, text@, replacement@) == Some(t@),
            None => regex_replaced(pattern@, text@, replacement@) is None,
        },
{
    match regex::Regex::new(pattern) {
        Ok(re) => Some(re.replace_all(text, replacement).into_owned()),
        Err(_) => None,
    }
}

/// `s` with every ANSI escape sequence removed.
pub open spec fn ansi_stripped(s: Seq<char>) -> Seq<char> {
    match regex_replaced(ANSI_PATTERN@, s, ""@) {
        Some(t) => t,
        None => s,
    }
}

/// The text after the last carriage return (all of `s` when there is none).
pub open spec fn after_last_cr(s: Seq<char>) -> Seq<char>
    decreases s.len(),
{
    if s.len() == 0 {
        s
    } else if s.last() == '\r' {
        Seq::empty()
    } else {
        after_last_cr(s.drop_last()).push(s.last())
    }
}

/// `s` without its control characters.
pub open spec fn without_controls(s: Seq<char>) -> Seq<char>
    decreases s.len(),
{
    if s.len() == 0 {
        s
    } else if is_control_spec(s.last()) {
        without_controls(s.drop_last())
    } else {
        without_controls(s.drop_last()).push(s.last())
    }
}

/// What `clean_for_display` returns.
pub open spec fn cleaned(s: Seq<char>) -> Seq<char> {
    without_controls(ansi_stripped(after_last_cr(s)))
}

/// Removes every ANSI escape sequence from `s`.
pub fn strip_ansi(s: &str) -> (r: String)
    ensures
        r@ == ansi_stripped(s@),
{
    match regex_replace_all(ANSI_PATTERN, s, "") {
        Some(t) => t,
        None => String::from_str(s),
    }
}

/// The characters after the last carriage return.
pub fn after_last_carriage_return(v: &[char]) -> (r: Vec<char>)
    ensures
        r@ == after_last_cr(v@),
{
    let mut start: usize = 0;
    let mut i: usize = 0;
    while i < v.len()
        invariant
            start <= i <= v.len(),
            after_last_cr(v@.subrange(0, i as int)) == v@.subrange(start as int, i as int),
        decreases v.len() - i,
    {
        proof {
            assert(v@.subrange(0, i + 1).drop_last() =~= v@.subrange(0, i as int));
            assert(v@.subrange(0, i + 1).last() == v@[i as int]);
        }
        if v[i] == '\r' {
            start = i + 1;
            assert(v@.subrange(start as int, i + 1) =~= Seq::<char>::empty());
        } else {
            assert(v@.subrange(start as int, i + 1) =~= v@.subrange(start as int, i as int).push(
                v@[i as int],
            ));
        }
        i = i + 1;
    }
    assert(v@.subrange(0, v@.len() as int) =~= v@);
    let mut r: Vec<char> = Vec::new();
    let mut j: usize = start;
    while j < v.len()
        invariant
            start <= j <= v.len(),
            r@ == v@.subrange(start as int, j as int),
        decreases v.len() - j,
    {
        r.push(v[j]);
        assert(r@ =~= v@.subrange(start as int, j + 1));
        j = j + 1;
    }
    r
}

/// The characters of `v` that are not control characters.
pub fn remove_controls(v: &[char]) -> (r: Vec<char>)
    ensures
        r@ == without_controls(v@),
{
    let mut r: Vec<char> = Vec::new();
    let mut i: usize = 0;
    while i < v.len()
        invariant
            i <= v.len(),
            r@ == without_controls(v@.subrange(0, i as int)),
        decreases v.len() - i,
    {
        proof {
            assert(v@.subrange(0, i + 1).drop_last() =~= v@.subrange(0, i as int));
            assert(v@.subrange(0, i + 1).last() == v@[i as int]);
        }
        if !is_control(v[i]) {
            r.push(v[i]);
        }
        i = i + 1;
    }
    assert(v@.subrange(0, v@.len() as int) =~= v@);
    r
}

/// Cleans a string for display: keeps only the text after the last
/// carriage return (as a terminal overwrites the line), removes ANSI escape
/// sequences, then removes control characters.
pub fn clean_for_display(s: &str) -> (r: String)
    ensures
        r@ == cleaned(s@),
{
    let v = chars_of(s);
    let after = after_last_carriage_return(&v);
    let after_s = string_from_chars(&after);
    let no_ansi = strip_ansi(after_s.as_str());
    let w = chars_of(no_ansi.as_str());
    let kept = remove_controls(&w);
    string_from_chars(&kept)
}

/// The number of leading characters of `s` whose display widths add up to
/// at most `budget`, stopping at the first that does not fit.
pub open spec fn fitting_prefix(s: Seq<char>, budget: nat) -> nat
    decreases s.len(),
{
    if s.len() == 0 {
        0
    } else if cell_width(s[0]) > budget {
        0
    } else {
        1 + fitting_prefix(s.drop_first(), (budget - cell_width(s[0])) as nat)
    }
}

/// The sum of the display widths of the characters of `s`.
pub open spec fn cells(s: Seq<char>) -> nat
    decreases s.len(),
{
    if s.len() == 0 {
        0
    } else {
        cells(s.drop_last()) + cell_width(s.last())
    }
}

/// What `truncate_to_width` returns.
pub open spec fn truncated(s: Seq<char>, max_width: nat) -> Seq<char> {
    let c = cleaned(s);
    if str_width_of(c) <= max_width {
        c
    } else {
        let budget = sat_sub_nat(max_width, 3);
        c.subrange(0, fitting_prefix(c, budget) as int) + seq!['.', '.', '.']
    }
}

/// `a - b`, or zero when `b > a`.
pub open spec fn sat_sub_nat(a: nat, b: nat) -> nat {
    if a >= b {
        (a - b) as nat
    } else {
        0
    }
}

/// Cleans `s` (see `clean_for_display`) and, when its display width exceeds
/// `max_width`, keeps the longest prefix whose width fits in `max_width - 3`
/// and appends "...".
pub fn truncate_to_width(s: &str, max_width: usize) -> (r: String)
    ensures
        r@ == truncated(s@, max_width as nat),
{
    let clean = clean_for_display(s);
    let width = str_width(clean.as_str());
    if width <= max_width {
        return clean;
    }
    let target = max_width.saturating_sub(3);
    let cs = chars_of(clean.as_str());
    let mut current: usize = 0;
    let mut end: usize = 0;
    assert(cs@.subrange(0, cs@.len() as int) =~= cs@);
    while end < cs.len()
        invariant
            end <= cs.len(),
            current <= target,
            fitting_prefix(cs@, target as nat) == end + fitting_prefix(
                cs@.subrange(end as int, cs@.len() as int),
                (target - current) as nat,
            ),
        ensures
            end <= cs.len(),
            fitting_prefix(cs@, target as nat) == end,
        decreases cs.len() - end,
    {
        proof {
            if end == 0 && cs.len() == 0 {
                assert(false);
            }
        }
        let w = match char_width(cs[end]) {
            Some(w) => w,
            None => 0,
        };
        proof {
            let rest = cs@.subrange(end as int, cs@.len() as int);
            assert(rest[0] == cs@[end as int]);
            assert(rest.drop_first() =~= cs@.subrange(end + 1, cs@.len() as int));
        }
        if w > target - current {
            break;
        }
        proof {
            if end + 1 == cs.len() {
                assert(cs@.subrange(end + 1, cs@.len() as int) =~= Seq::<char>::empty());
            }
        }
        current = current + w;
        end = end + 1;
    }
    let mut out: Vec<char> = Vec::new();
    let mut i: usize = 0;
    while i < end
        invariant
            end <= cs.len(),
            i <= end,
            out@ == cs@.subrange(0, i as int),
        decreases end - i,
    {
        out.push(cs[i]);
        assert(out@ =~= cs@.subrange(0, i + 1));
        i = i + 1;
    }
    out.push('.');
    out.push('.');
    out.push('.');
    assert(out@ =~= cs@.subrange(0, end as int) + seq!['.', '.', '.']);
    string_from_chars(&out)
}

/// `s` followed by spaces up to a display width of `w`.
pub open spec fn padded(s: Seq<char>, w: nat) -> Seq<char> {
    if str_width_of(s) >= w {
        s
    } else {
        s + spaces((w - str_width_of(s)) as nat)
    }
}

/// `s` followed by spaces up to a display width of `target_width`; `s`
/// unchanged when it is already that wide.
pub fn pad_to_width(s: &str, target_width: usize) -> (r: String)
    ensures
        r@ == padded(s@, target_width as nat),
{
    let width = str_width(s);
    if width >= target_width {
        return String::from_str(s);
    }
    let padding = target_width - width;
    let mut v = chars_of(s);
    let ghost base = v@;
    let mut i: usize = 0;
    while i < padding
        invariant
            i <= padding,
            v@ == base + spaces(i as nat),
        decreases padding - i,
    {
        v.push(' ');
        assert(v@ =~= base + spaces((i + 1) as nat));
        i = i + 1;
    }
    string_from_chars(&v)
}

/// The display width of `s` (as `UnicodeWidthStr::width`).
pub fn display_width(s: &str) -> (r: usize)
    ensures
        r == str_width_of(s@),
{
    str_width(s)
}

/// The number of binary digits of `n`.
pub open spec fn bit_len(n: nat) -> nat
    decreases n,
{
    if n == 0 { 0 } else { 1 + bit_len(n / 2) }
}

/// Two to the power `n`.
pub open spec fn two_pow(n: nat) -> nat
    decreases n,
{
    if n == 0 { 1 } else { 2 * two_pow((n - 1) as nat) }
}

/// `n / d` rounded to the nearest integer, ties to the even one.
pub open spec fn div_round_even(n: nat, d: nat) -> nat {
    let q = n / d;
    let r = n % d;
    if 2 * r > d || (2 * r == d && q % 2 == 1) { q + 1 } else { q }
}

/// The value of `n` converted to a 64-bit float (`n as f64`): `n` rounded
/// to 53 significant bits, ties to even.
pub open spec fn double_of(n: nat) -> nat {
    let l = bit_len(n);
    if l <= 53 {
        n
    } else {
        let s = (l - 53) as nat;
        div_round_even(n, two_pow(s)) * two_pow(s)
    }
}

/// `n / 2^k`, as a float computes it, to one decimal place (`{:.1}`: the
/// exact value rounded half to even): the digits before the point, the
/// point, and one digit.
pub open spec fn one_decimal(n: nat, k: nat) -> Seq<char> {
    let t = div_round_even(10 * double_of(n), two_pow(k));
    decimal(t / 10) + seq!['.'] + seq![digit_char(t % 10)]
}

/// The human-readable size of `bytes`: in GB, MB or KB (powers of 1024)
/// with one decimal from 1 KB on, in bytes below.
pub open spec fn size_text(bytes: u64) -> Seq<char> {
    if bytes >= 1073741824 {
        one_decimal(bytes as nat, 30) + seq![' ', 'G', 'B']
    } else if bytes >= 1048576 {
        one_decimal(bytes as nat, 20) + seq![' ', 'M', 'B']
    } else if bytes >= 1024 {
        one_decimal(bytes as nat, 10) + seq![' ', 'K', 'B']
    } else {
        decimal(bytes as nat) + seq![' ', 'B']
    }
}

/// A number below `2^k` has at most `k` binary digits.
proof fn lemma_bit_len_bound(n: nat, k: nat)
    requires
        n < two_pow(k),
    ensures
        bit_len(n) <= k,
    decreases k,
{
    if n > 0 {
        if k == 0 {
        } else {
            lemma_bit_len_bound(n / 2, (k - 1) as nat);
        }
    }
}

/// Powers of two grow with the exponent.
proof fn lemma_two_pow_mono(a: nat, b: nat)
    requires
        a <= b,
    ensures
        two_pow(a) <= two_pow(b),
    decreases b,
{
    if a < b {
        lemma_two_pow_mono(a, (b - 1) as nat);
    }
}

/// The number of binary digits of `n`.
fn bit_length(n: u64) -> (l: u32)
    ensures
        l == bit_len(n as nat),
        l <= 64,
{
    proof {
        assert(two_pow(64) == 18446744073709551616) by {
            reveal_with_fuel(two_pow, 65);
        }
        lemma_bit_len_bound(n as nat, 64);
    }
    let mut m = n;
    let mut l: u32 = 0;
    while m > 0
        invariant
            l + bit_len(m as nat) == bit_len(n as nat),
            bit_len(n as nat) <= 64,
        decreases m,
    {
        m = m / 2;
        l = l + 1;
    }
    l
}

/// Two to the power `s`, for `s` up to 11.
fn pow_of_two(s: u32) -> (p: u128)
    requires
        s <= 11,
    ensures
        p == two_pow(s as nat),
        1 <= p <= 2048,
{
    proof {
        assert(two_pow(11) == 2048) by {
            reveal_with_fuel(two_pow, 12);
        }
    }
    let mut p: u128 = 1;
    let mut i: u32 = 0;
    while i < s
        invariant
            i <= s <= 11,
            p == two_pow(i as nat),
            two_pow(11) == 2048,
        decreases s - i,
    {
        proof {
            lemma_two_pow_mono((i + 1) as nat, 11);
        }
        p = p * 2;
        i = i + 1;
    }
    proof {
        lemma_two_pow_mono(0, s as nat);
        lemma_two_pow_mono(s as nat, 11);
    }
    p
}

/// `n / d` rounded to the nearest integer, ties to even.
fn round_div(n: u128, d: u128) -> (r: u128)
    requires
        0 < d <= 0x4000_0000,
        n <= 0x1_0000_0000_0000_0000_0000,
    ensures
        r == div_round_even(n as nat, d as nat),
        r <= n / d + 1,
{
    let q = n / d;
    let rem = n % d;
    if 2 * rem > d || (2 * rem == d && q % 2 == 1) {
        assert(q <= n) by (nonlinear_arith)
            requires q == n / d, d > 0;
        q + 1
    } else {
        q
    }
}

/// `n` as a 64-bit float holds it (see `double_of`).
fn to_double(n: u64) -> (f: u128)
    ensures
        f == double_of(n as nat),
        f <= n + 2048,
{
    let l = bit_length(n);
    if l <= 53 {
        n as u128
    } else {
        let s = l - 53;
        let p = pow_of_two(s);
        let q = round_div(n as u128, p);
        assert(q * p <= n + p) by (nonlinear_arith)
            requires q <= (n as u128) / p + 1, p > 0;
        q * p
    }
}

/// `n / 2^k` to one decimal place (see `one_decimal`), for `k` of 10, 20
/// or 30.
fn one_decimal_of(n: u64, k: u32) -> (r: String)
    requires
        k == 10 || k == 20 || k == 30,
    ensures
        r@ == one_decimal(n as nat, k as nat),
{
    let unit: u128 = if k == 10 { 1024 } else if k == 20 { 1048576 } else { 1073741824 };
    proof {
        assert(two_pow(10) == 1024) by {
            reveal_with_fuel(two_pow, 11);
        }
        assert(two_pow(20) == 1048576) by {
            reveal_with_fuel(two_pow, 21);
        }
        assert(two_pow(30) == 1073741824) by {
            reveal_with_fuel(two_pow, 31);
        }
    }
    let f = to_double(n);
    let t = round_div(10 * f, unit);
    let whole = u128_to_string(t / 10);
    let frac = u128_to_string(t % 10);
    proof {
        reveal_strlit(".");
        assert(decimal((t % 10) as nat) == seq![digit_char((t % 10) as nat)]);
    }
    let a = concat(whole.as_str(), ".");
    concat(a.as_str(), frac.as_str())
}

/// The human-readable size of `bytes` (see `size_text`): "1.5 KB",
/// "512 B".
pub fn format_size(bytes: u64) -> (r: String)
    ensures
        r@ == size_text(bytes),
{
    proof {
        reveal_strlit(" GB");
        reveal_strlit(" MB");
        reveal_strlit(" KB");
        reveal_strlit(" B");
    }
    if bytes >= 1073741824 {
        let d = one_decimal_of(bytes, 30);
        concat(d.as_str(), " GB")
    } else if bytes >= 1048576 {
        let d = one_decimal_of(bytes, 20);
        concat(d.as_str(), " MB")
    } else if bytes >= 1024 {
        let d = one_decimal_of(bytes, 10);
        concat(d.as_str(), " KB")
    } else {
        let d = u128_to_string(bytes as u128);
        concat(d.as_str(), " B")
    }
}

} // verus!
