//! Text helpers: strings as sequences of characters, character classes,
//! and the display widths that `unicode-width` computes.
use vstd::prelude::*;
use vstd::string::*;
use unicode_width::UnicodeWidthChar;
use unicode_width::UnicodeWidthStr;

verus! {

/// The characters of `s`, in order.
pub fn chars_of(s: &str) -> (v: Vec<char>)
    ensures
        v@ == s@,
{
    let n = s.unicode_len();
    let mut v: Vec<char> = Vec::new();
    let mut i: usize = 0;
    while i < n
        invariant
            n == s@.len(),
            i <= n,
            v@ == s@.subrange(0, i as int),
        decreases n - i,
    {
        let c = s.get_char(i);
        v.push(c);
        i = i + 1;
    }
    v
}

/// Appends one character to a `String` (`String::push`).
#[verifier::external_body]
fn string_push(s: &mut String, c: char)
    ensures
        final(s)@ == old(s)@.push(c),
{
    s.push(c);
}

/// A `String` holding exactly the given characters.
pub fn string_from_chars(v: &[char]) -> (s: String)
    ensures
        s@ == v@,
{
    let mut s = String::new();
    let mut i: usize = 0;
    while i < v.len()
        invariant
            i <= v.len(),
            s@ == v@.subrange(0, i as int),
        decreases v.len() - i,
    {
        string_push(&mut s, v[i]);
        i = i + 1;
    }
    s
}

/// A `String` holding the characters of `s`.
pub fn string_from_str(s: &str) -> (r: String)
    ensures
        r@ == s@,
{
    String::from_str(s)
}

/// `a` followed by `b`.
pub fn concat(a: &str, b: &str) -> (r: String)
    ensures
        r@ == a@ + b@,
{
    let mut v = chars_of(a);
    let mut w = chars_of(b);
    v.append(&mut w);
    string_from_chars(&v)
}

/// The first `n` characters of `s`, or all of `s` where it is shorter.
pub open spec fn take_at_most(s: Seq<char>, n: int) -> Seq<char> {
    if n < s.len() { s.subrange(0, n) } else { s }
}

/// The first `n` characters of `s` (as `s.chars().take(n)`).
pub fn take_chars(s: &str, n: usize) -> (r: String)
    ensures
        r@ == take_at_most(s@, n as int),
{
    let len = s.unicode_len();
    if n < len {
        string_from_str(s.substring_char(0, n))
    } else {
        string_from_str(s)
    }
}

/// Whether two strings hold the same characters.
pub fn str_eq(a: &str, b: &str) -> (r: bool)
    ensures
        r == (a@ == b@),
{
    let x = chars_of(a);
    let y = chars_of(b);
    chars_eq(&x, &y)
}

/// Whether two character slices are equal.
pub fn chars_eq(x: &[char], y: &[char]) -> (r: bool)
    ensures
        r == (x@ == y@),
{
    if x.len() != y.len() {
        return false;
    }
    let mut i: usize = 0;
    while i < x.len()
        invariant
            x.len() == y.len(),
            i <= x.len(),
            forall|j: int| 0 <= j < i ==> x@[j] == y@[j],
        decreases x.len() - i,
    {
        if x[i] != y[i] {
            return false;
        }
        i = i + 1;
    }
    assert(x@ =~= y@);
    true
}

/// Unicode `White_Space`: the characters `char::is_whitespace` accepts.
pub open spec fn is_whitespace_spec(c: char) -> bool {
    let u = c as u32;
    ||| 0x09 <= u <= 0x0D
    ||| u == 0x20
    ||| u == 0x85
    ||| u == 0xA0
    ||| u == 0x1680
    ||| 0x2000 <= u <= 0x200A
    ||| u == 0x2028
    ||| u == 0x2029
    ||| u == 0x202F
    ||| u == 0x205F
    ||| u == 0x3000
}

/// Whether `c` is white space (as `char::is_whitespace`).
pub fn is_whitespace(c: char) -> (b: bool)
    ensures
        b == is_whitespace_spec(c),
{
    let u = c as u32;
    (0x09 <= u && u <= 0x0D) || u == 0x20 || u == 0x85 || u == 0xA0 || u == 0x1680 || (0x2000
        <= u && u <= 0x200A) || u == 0x2028 || u == 0x2029 || u == 0x202F || u == 0x205F || u
        == 0x3000
}

/// Unicode general category `Cc`: the characters `char::is_control` accepts.
pub open spec fn is_control_spec(c: char) -> bool {
    let u = c as u32;
    u <= 0x1F || (0x7F <= u <= 0x9F)
}

/// Whether `c` is a control character (as `char::is_control`).
pub fn is_control(c: char) -> (b: bool)
    ensures
        b == is_control_spec(c),
{
    let u = c as u32;
    u <= 0x1F || (0x7F <= u && u <= 0x9F)
}

/// `needle` occurs in `hay` at position `i`.
pub open spec fn occurs_at(hay: Seq<char>, needle: Seq<char>, i: int) -> bool {
    0 <= i && i + needle.len() <= hay.len() && hay.subrange(i, i + needle.len()) == needle
}

/// `needle` occurs somewhere in `hay` (as `str::contains`).
pub open spec fn contains_spec(hay: Seq<char>, needle: Seq<char>) -> bool {
    exists|i: int| occurs_at(hay, needle, i)
}

/// Whether `needle` occurs in `hay`.
pub fn contains_chars(hay: &[char], needle: &[char]) -> (r: bool)
    ensures
        r == contains_spec(hay@, needle@),
{
    if needle.len() > hay.len() {
        assert forall|i: int| !occurs_at(hay@, needle@, i) by {}
        return false;
    }
    let last = hay.len() - needle.len();
    let mut i: usize = 0;
    while i <= last
        invariant
            last + needle.len() == hay.len(),
            i <= last + 1,
            forall|k: int| 0 <= k < i ==> !occurs_at(hay@, needle@, k),
        decreases last + 1 - i,
    {
        let mut j: usize = 0;
        let mut same = true;
        while j < needle.len()
            invariant
                last + needle.len() == hay.len(),
                i <= last,
                j <= needle.len(),
                same == (forall|t: int| 0 <= t < j ==> hay@[i + t] == needle@[t]),
            decreases needle.len() - j,
        {
            if hay[i + j] != needle[j] {
                same = false;
            }
            j = j + 1;
        }
        if same {
            assert(hay@.subrange(i as int, i + needle@.len()) =~= needle@);
            assert(occurs_at(hay@, needle@, i as int));
            return true;
        }
        assert(!occurs_at(hay@, needle@, i as int)) by {
            if occurs_at(hay@, needle@, i as int) {
                let t = choose|t: int| 0 <= t < needle@.len() && hay@[i + t] != needle@[t];
                assert(hay@.subrange(i as int, i + needle@.len())[t] == hay@[i + t]);
            }
        }
        i = i + 1;
    }
    assert forall|k: int| !occurs_at(hay@, needle@, k) by {
        if occurs_at(hay@, needle@, k) {
            assert(0 <= k < i);
        }
    }
    false
}

/// Whether the text of `needle` occurs in `hay`.
pub fn str_contains(hay: &str, needle: &str) -> (r: bool)
    ensures
        r == contains_spec(hay@, needle@),
{
    let h = chars_of(hay);
    let n = chars_of(needle);
    contains_chars(&h, &n)
}

/// What `str::to_lowercase` returns for a text (full Unicode case mapping).
pub uninterp spec fn lowercase(s: Seq<char>) -> Seq<char>;

/// Calls `str::to_lowercase`. Its result is the Unicode lower-case mapping
/// of the text, which the name `lowercase` stands for; nothing else about it
/// is claimed.
#[verifier::external_body]
pub(crate) fn to_lowercase(s: &str) -> (r: String)
    ensures
        r@ == lowercase(s@),
{
    s.to_lowercase()
}

/// What `UnicodeWidthChar::width` returns for a character.
pub uninterp spec fn char_width_of(c: char) -> Option<usize>;

/// Calls `unicode_width::UnicodeWidthChar::width`. The result is the named
/// width of the character; the crate's source returns `None` exactly for the
/// control characters below U+0020 and from U+007F to U+009F, `Some(1)` for
/// printable ASCII, and otherwise a table entry of two bits (or a special
/// case of at most 3).
#[verifier::external_body]
pub(crate) fn char_width(c: char) -> (r: Option<usize>)
    ensures
        r == char_width_of(c),
        r is None <==> ((c as u32) < 0x20 || (0x7F <= (c as u32) && (c as u32) < 0xA0)),
        (0x20 <= (c as u32) && (c as u32) < 0x7F) ==> r == Some(1usize),
        r matches Some(w) ==> w <= 3,
{
    UnicodeWidthChar::width(c)
}

/// The display width of a character, zero for control characters.
pub open spec fn cell_width(c: char) -> nat {
    match char_width_of(c) {
        Some(w) => w as nat,
        None => 0,
    }
}

/// What `UnicodeWidthStr::width` returns for a text.
pub uninterp spec fn str_width_of(s: Seq<char>) -> usize;

/// Calls `unicode_width::UnicodeWidthStr::width`; the result is the named
/// display width of the text. How the crate combines characters (emoji
/// sequences, CR LF, ...) is not stated.
#[verifier::external_body]
pub(crate) fn str_width(s: &str) -> (r: usize)
    ensures
        r == str_width_of(s@),
{
    s.width()
}

/// The display width of a character as the components count it: its
/// width, zero for control characters.
pub fn cell_width_of(c: char) -> (w: usize)
    ensures
        w == cell_width(c),
        w <= 3,
{
    match char_width(c) {
        Some(w) => w,
        None => 0,
    }
}

/// `s` without its trailing white space.
pub open spec fn trim_end_spec(s: Seq<char>) -> Seq<char>
    decreases s.len(),
{
    if s.len() > 0 && is_whitespace_spec(s.last()) {
        trim_end_spec(s.drop_last())
    } else {
        s
    }
}

/// `s` without its trailing white space (as `str::trim_end`).
pub fn trim_end(s: &str) -> (r: String)
    ensures
        r@ == trim_end_spec(s@),
{
    let mut v = chars_of(s);
    let mut n = v.len();
    assert(v@.subrange(0, n as int) =~= v@);
    while n > 0 && is_whitespace(v[n - 1])
        invariant
            n <= v@.len(),
            trim_end_spec(v@.subrange(0, n as int)) == trim_end_spec(v@),
        decreases n,
    {
        assert(v@.subrange(0, n as int).drop_last() =~= v@.subrange(0, n - 1));
        n = n - 1;
    }
    assert(trim_end_spec(v@.subrange(0, n as int)) == v@.subrange(0, n as int));
    v.truncate(n);
    string_from_chars(&v)
}

/// `s` followed by spaces up to `n` characters, as `format!("{:<n$}", s)`.
pub open spec fn pad_right(s: Seq<char>, n: int) -> Seq<char> {
    if s.len() < n { s + spaces((n - s.len()) as nat) } else { s }
}

/// Pads `s` with spaces on the right to `n` characters.
pub fn pad_right_str(s: &str, n: usize) -> (r: String)
    ensures
        r@ == pad_right(s@, n as int),
{
    let mut v = chars_of(s);
    let len = v.len();
    let mut i = len;
    while i < n
        invariant
            len == s@.len(),
            len <= i <= n || (len > n && i == len),
            v@ == s@ + spaces((i - len) as nat),
        decreases n - i,
    {
        v.push(' ');
        assert(v@ =~= s@ + spaces((i + 1 - len) as nat));
        i = i + 1;
    }
    if len < n {
        assert(i == n);
    } else {
        assert(v@ =~= s@);
    }
    string_from_chars(&v)
}

/// Spaces up to `n` characters, then `s`, as `format!("{:>n$}", s)`.
pub open spec fn pad_left(s: Seq<char>, n: int) -> Seq<char> {
    if s.len() < n { spaces((n - s.len()) as nat) + s } else { s }
}

/// Pads `s` with spaces on the left to `n` characters.
pub fn pad_left_str(s: &str, n: usize) -> (r: String)
    ensures
        r@ == pad_left(s@, n as int),
{
    let len = s.unicode_len();
    if len >= n {
        return string_from_str(s);
    }
    let mut v: Vec<char> = Vec::new();
    let mut i: usize = 0;
    while i < n - len
        invariant
            len == s@.len(),
            len < n,
            i <= n - len,
            v@ == spaces(i as nat),
        decreases n - len - i,
    {
        v.push(' ');
        assert(v@ =~= spaces((i + 1) as nat));
        i = i + 1;
    }
    let mut w = chars_of(s);
    v.append(&mut w);
    string_from_chars(&v)
}

/// The decimal digit for `d < 10`.
pub open spec fn digit_char(d: nat) -> char {
    ((d + 48) as u32) as char
}

/// The decimal representation of `n`, without leading zeros.
pub open spec fn decimal(n: nat) -> Seq<char>
    decreases n,
{
    if n < 10 {
        seq![digit_char(n)]
    } else {
        decimal(n / 10).push(digit_char(n % 10))
    }
}

/// The character of the decimal digit `d`.
fn digit(d: usize) -> (c: char)
    requires
        d < 10,
    ensures
        c == digit_char(d as nat),
{
    match d {
        0 => '0',
        1 => '1',
        2 => '2',
        3 => '3',
        4 => '4',
        5 => '5',
        6 => '6',
        7 => '7',
        8 => '8',
        _ => '9',
    }
}

/// The decimal representation of `n` (as `n.to_string()`).
pub fn u128_to_string(n: u128) -> (r: String)
    ensures
        r@ == decimal(n as nat),
{
    let mut digits: Vec<char> = Vec::new();
    let mut m = n;
    proof {
        assert(decimal(n as nat) =~= decimal(m as nat) + digits@.reverse());
    }
    while m >= 10
        invariant
            decimal(n as nat) == decimal(m as nat) + digits@.reverse(),
        decreases m,
    {
        let c = digit((m % 10) as usize);
        proof {
            assert(decimal(m as nat) == decimal((m / 10) as nat).push(c));
            assert(digits@.push(c).reverse() =~= seq![c] + digits@.reverse());
            assert(decimal((m / 10) as nat).push(c) + digits@.reverse() =~= decimal((m / 10) as nat) + (seq![c] + digits@.reverse()));
        }
        digits.push(c);
        m = m / 10;
    }
    let c = digit(m as usize);
    digits.push(c);
    let mut out: Vec<char> = Vec::new();
    let mut i = digits.len();
    while i > 0
        invariant
            i <= digits@.len(),
            out@ == digits@.subrange(i as int, digits@.len() as int).reverse(),
        decreases i,
    {
        i = i - 1;
        out.push(digits[i]);
        assert(out@ =~= digits@.subrange(i as int, digits@.len() as int).reverse());
    }
    assert(out@ =~= decimal(n as nat));
    string_from_chars(&out)
}

/// The decimal representation of `n` (as `n.to_string()`).
pub fn usize_to_string(n: usize) -> (r: String)
    ensures
        r@ == decimal(n as nat),
{
    u128_to_string(n as u128)
}

/// `n` copies of `c`.
pub open spec fn repeat_char(c: char, n: nat) -> Seq<char> {
    Seq::new(n, |i: int| c)
}

/// `s` followed by copies of `c` up to `n` characters, as
/// `format!("{:c<n$}", s)`.
pub open spec fn fill_right(s: Seq<char>, n: int, c: char) -> Seq<char> {
    if s.len() < n { s + repeat_char(c, (n - s.len()) as nat) } else { s }
}

/// Pads `s` with copies of `c` on the right to `n` characters.
pub fn fill_right_str(s: &str, n: usize, c: char) -> (r: String)
    ensures
        r@ == fill_right(s@, n as int, c),
{
    let mut v = chars_of(s);
    let len = v.len();
    if len >= n {
        return string_from_chars(&v);
    }
    let mut i: usize = len;
    while i < n
        invariant
            len == s@.len(),
            len <= i <= n,
            v@ == s@ + repeat_char(c, (i - len) as nat),
        decreases n - i,
    {
        v.push(c);
        assert(v@ =~= s@ + repeat_char(c, (i + 1 - len) as nat));
        i = i + 1;
    }
    string_from_chars(&v)
}

/// `s` centered in `n` characters, as `format!("{:^n$}", s)`: the spaces
/// split with the smaller half on the left.
pub open spec fn center(s: Seq<char>, n: int) -> Seq<char> {
    if s.len() < n {
        let pad = n - s.len();
        spaces((pad / 2) as nat) + s + spaces((pad - pad / 2) as nat)
    } else {
        s
    }
}

/// Centers `s` in `n` characters.
pub fn center_str(s: &str, n: usize) -> (r: String)
    ensures
        r@ == center(s@, n as int),
{
    let len = s.unicode_len();
    if len >= n {
        return string_from_str(s);
    }
    let pad = n - len;
    let left = pad / 2;
    let right = pad - left;
    let mut v: Vec<char> = Vec::new();
    let mut i: usize = 0;
    while i < left
        invariant
            i <= left,
            v@ == spaces(i as nat),
        decreases left - i,
    {
        v.push(' ');
        assert(v@ =~= spaces((i + 1) as nat));
        i = i + 1;
    }
    let mut w = chars_of(s);
    v.append(&mut w);
    let ghost mid = v@;
    let mut j: usize = 0;
    while j < right
        invariant
            j <= right,
            v@ == mid + spaces(j as nat),
        decreases right - j,
    {
        v.push(' ');
        assert(v@ =~= mid + spaces((j + 1) as nat));
        j = j + 1;
    }
    string_from_chars(&v)
}

/// `n` copies of the space character.
pub open spec fn spaces(n: nat) -> Seq<char> {
    Seq::new(n, |i: int| ' ')
}

} // verus!
