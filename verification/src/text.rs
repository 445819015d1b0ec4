//! Character-level text helpers shared by the parsers and matchers.
//!
//! Text is handled as a sequence of Unicode scalar values (`char`), which is
//! exactly the view Verus gives a `String` or `&str`.
use vstd::prelude::*;

verus! {

broadcast use vstd::string::group_string_axioms;

/// `String::push` appends one character.
pub assume_specification[ String::push ](s: &mut String, ch: char)
    ensures
        final(s)@ == old(s)@.push(ch),
;

// ---------------------------------------------------------------------------
// Character classes
// ---------------------------------------------------------------------------

/// The Unicode `White_Space` property, which is what `char::is_whitespace`
/// tests.
pub open spec fn is_ws(c: char) -> bool {
    let u = c as u32;
    (0x09 <= u && u <= 0x0D) || u == 0x20 || u == 0x85 || u == 0xA0 || u == 0x1680 || (0x2000
        <= u && u <= 0x200A) || u == 0x2028 || u == 0x2029 || u == 0x202F || u == 0x205F || u
        == 0x3000
}

pub fn is_whitespace(c: char) -> (b: bool)
    ensures
        b == is_ws(c),
{
    let u = c as u32;
    (0x09 <= u && u <= 0x0D) || u == 0x20 || u == 0x85 || u == 0xA0 || u == 0x1680 || (0x2000
        <= u && u <= 0x200A) || u == 0x2028 || u == 0x2029 || u == 0x202F || u == 0x205F || u
        == 0x3000
}

/// The Unicode general category `Cc`, which is what `char::is_control` tests.
pub open spec fn is_ctl(c: char) -> bool {
    let u = c as u32;
    u <= 0x1F || (0x7F <= u && u <= 0x9F)
}

pub fn is_control(c: char) -> (b: bool)
    ensures
        b == is_ctl(c),
{
    let u = c as u32;
    u <= 0x1F || (0x7F <= u && u <= 0x9F)
}

/// ASCII lower-casing of one character; every other character is unchanged.
pub open spec fn ascii_lower(c: char) -> char {
    if 'A' <= c && c <= 'Z' {
        ((c as u32) + 32) as char
    } else {
        c
    }
}

pub open spec fn ascii_lower_seq(s: Seq<char>) -> Seq<char> {
    s.map_values(|c: char| ascii_lower(c))
}

pub fn to_ascii_lower_char(c: char) -> (r: char)
    ensures
        r == ascii_lower(c),
{
    if 'A' <= c && c <= 'Z' {
        let u = ((c as u32) + 32) as u8;
        u as char
    } else {
        c
    }
}

/// A name for what `str::to_lowercase` returns for `s`: its Unicode
/// lowercase mapping.
pub uninterp spec fn unicode_lower(s: Seq<char>) -> Seq<char>;

/// Calls `str::to_lowercase`, whose result depends on its argument alone.
#[verifier::external_body]
pub(crate) fn to_lowercase(s: &str) -> (r: String)
    ensures
        r@ == unicode_lower(s@),
{
    s.to_lowercase()
}

/// A name for what `str::to_uppercase` returns for `s`: its Unicode
/// uppercase mapping.
pub uninterp spec fn unicode_upper(s: Seq<char>) -> Seq<char>;

/// Calls `str::to_uppercase`, whose result depends on its argument alone.
#[verifier::external_body]
pub(crate) fn to_uppercase(s: &str) -> (r: String)
    ensures
        r@ == unicode_upper(s@),
{
    s.to_uppercase()
}

/// A name for what `char::is_alphanumeric` returns for `c`: whether it is
/// alphabetic or numeric by the Unicode tables.
pub uninterp spec fn unicode_alphanumeric(c: char) -> bool;

/// Calls `char::is_alphanumeric`, whose result depends on its argument alone.
#[verifier::external_body]
pub(crate) fn is_alphanumeric(c: char) -> (b: bool)
    ensures
        b == unicode_alphanumeric(c),
{
    c.is_alphanumeric()
}

// ---------------------------------------------------------------------------
// UTF-8 lengths
// ---------------------------------------------------------------------------

/// Number of bytes in the UTF-8 encoding of `c`.
pub open spec fn char_width(c: char) -> nat {
    let u = c as u32;
    if u < 0x80 {
        1
    } else if u < 0x800 {
        2
    } else if u < 0x10000 {
        3
    } else {
        4
    }
}

/// Number of bytes in the UTF-8 encoding of `s` (what `str::len` returns).
pub open spec fn utf8_len(s: Seq<char>) -> nat
    decreases s.len(),
{
    if s.len() == 0 {
        0
    } else {
        char_width(s[0]) + utf8_len(s.drop_first())
    }
}

pub proof fn lemma_utf8_len_concat(a: Seq<char>, b: Seq<char>)
    ensures
        utf8_len(a + b) == utf8_len(a) + utf8_len(b),
    decreases a.len(),
{
    if a.len() > 0 {
        assert((a + b).drop_first() == a.drop_first() + b);
        lemma_utf8_len_concat(a.drop_first(), b);
    } else {
        assert(a + b == b);
    }
}

pub proof fn lemma_utf8_len_push(s: Seq<char>, c: char)
    ensures
        utf8_len(s.push(c)) == utf8_len(s) + char_width(c),
{
    lemma_utf8_len_concat(s, seq![c]);
    assert(s.push(c) == s + seq![c]);
    assert(seq![c].drop_first() == Seq::<char>::empty());
    assert(utf8_len(Seq::<char>::empty()) == 0);
    assert(seq![c][0] == c);
}

pub proof fn lemma_utf8_len_take(s: Seq<char>, i: int)
    requires
        0 <= i < s.len(),
    ensures
        utf8_len(s.take(i + 1)) == utf8_len(s.take(i)) + char_width(s[i]),
{
    assert(s.take(i + 1) == s.take(i).push(s[i]));
    lemma_utf8_len_push(s.take(i), s[i]);
}

pub proof fn lemma_utf8_len_prefix_le(s: Seq<char>, i: int)
    requires
        0 <= i <= s.len(),
    ensures
        utf8_len(s.take(i)) <= utf8_len(s),
        i <= utf8_len(s.take(i)),
{
    lemma_utf8_len_concat(s.take(i), s.skip(i));
    assert(s.take(i) + s.skip(i) == s);
    lemma_utf8_len_ge_len(s.take(i));
}

pub proof fn lemma_utf8_len_ge_len(s: Seq<char>)
    ensures
        s.len() <= utf8_len(s),
        utf8_len(s) <= 4 * s.len(),
    decreases s.len(),
{
    if s.len() > 0 {
        lemma_utf8_len_ge_len(s.drop_first());
    }
}

pub proof fn lemma_encode_len(s: Seq<char>)
    ensures
        vstd::utf8::encode_utf8(s).len() == utf8_len(s),
    decreases s.len(),
{
    if s.len() > 0 {
        vstd::utf8::char_is_scalar(s[0]);
        lemma_encode_len(s.drop_first());
    }
}

pub fn char_len_utf8(c: char) -> (n: usize)
    ensures
        n == char_width(c),
{
    let u = c as u32;
    if u < 0x80 {
        1
    } else if u < 0x800 {
        2
    } else if u < 0x10000 {
        3
    } else {
        4
    }
}

/// Byte length of `s`.
pub fn byte_len(s: &str) -> (n: usize)
    ensures
        n == utf8_len(s@),
{
    proof {
        lemma_encode_len(s@);
    }
    let b = s.as_bytes();
    b.len()
}

/// Whether `s` has no characters.
pub fn str_is_empty(s: &str) -> (b: bool)
    ensures
        b == (s@.len() == 0),
{
    proof {
        lemma_utf8_len_ge_len(s@);
        if s@.len() == 0 {
            assert(utf8_len(s@) == 0);
        }
    }
    byte_len(s) == 0
}

// ---------------------------------------------------------------------------
// Conversions
// ---------------------------------------------------------------------------

pub fn chars_of(s: &str) -> (v: Vec<char>)
    ensures
        v@ == s@,
{
    let mut v: Vec<char> = Vec::new();
    for c in it: s.chars()
        invariant
            v@ == it.seq().take(it.index() as int),
    {
        v.push(c);
    }
    v
}

pub fn string_of(v: &[char]) -> (s: String)
    ensures
        s@ == v@,
{
    let mut s = String::new();
    let mut i: usize = 0;
    while i < v.len()
        invariant
            i <= v.len(),
            s@ == v@.take(i as int),
        decreases v.len() - i,
    {
        s.push(v[i]);
        assert(v@.take(i + 1) == v@.take(i as int).push(v@[i as int]));
        i = i + 1;
    }
    assert(v@.take(v.len() as int) == v@);
    s
}

/// Copy `s[a..b]` into a new vector.
pub fn sub_vec(s: &[char], a: usize, b: usize) -> (v: Vec<char>)
    requires
        a <= b <= s@.len(),
    ensures
        v@ == s@.subrange(a as int, b as int),
{
    let mut v: Vec<char> = Vec::new();
    let mut i = a;
    while i < b
        invariant
            a <= i <= b,
            b <= s@.len(),
            v@ == s@.subrange(a as int, i as int),
        decreases b - i,
    {
        v.push(s[i]);
        assert(s@.subrange(a as int, i + 1) == s@.subrange(a as int, i as int).push(s@[i as int]));
        i = i + 1;
    }
    v
}

/// `s[a..b]` as a `String`.
pub fn sub_string(s: &[char], a: usize, b: usize) -> (r: String)
    requires
        a <= b <= s@.len(),
    ensures
        r@ == s@.subrange(a as int, b as int),
{
    let v = sub_vec(s, a, b);
    string_of(v.as_slice())
}

pub fn append_chars(dst: &mut String, src: &[char])
    ensures
        final(dst)@ == old(dst)@ + src@,
{
    let mut i: usize = 0;
    while i < src.len()
        invariant
            i <= src.len(),
            dst@ == old(dst)@ + src@.take(i as int),
        decreases src.len() - i,
    {
        dst.push(src[i]);
        assert(src@.take(i + 1) == src@.take(i as int).push(src@[i as int]));
        i = i + 1;
    }
    assert(src@.take(src.len() as int) == src@);
}

/// Append a `&str` to a `String`.
pub fn push_str(dst: &mut String, src: &str)
    ensures
        final(dst)@ == old(dst)@ + src@,
{
    let v = chars_of(src);
    append_chars(dst, v.as_slice());
}

/// Concatenate two strings into a new one.
pub fn concat2(a: &str, b: &str) -> (r: String)
    ensures
        r@ == a@ + b@,
{
    let mut r = a.to_string();
    push_str(&mut r, b);
    r
}

/// Concatenate three strings into a new one.
pub fn concat3(a: &str, b: &str, c: &str) -> (r: String)
    ensures
        r@ == a@ + b@ + c@,
{
    let mut r = a.to_string();
    push_str(&mut r, b);
    push_str(&mut r, c);
    r
}

pub fn str_eq(a: &str, b: &str) -> (r: bool)
    ensures
        r == (a@ == b@),
{
    let x = chars_of(a);
    let y = chars_of(b);
    chars_eq(x.as_slice(), y.as_slice())
}

pub fn chars_eq(x: &[char], y: &[char]) -> (r: bool)
    ensures
        r == (x@ == y@),
{
    if x.len() != y.len() {
        return false;
    }
    let mut i: usize = 0;
    while i < x.len()
        invariant
            x@.len() == y@.len(),
            i <= x@.len(),
            forall|k: int| 0 <= k < i ==> x@[k] == y@[k],
        decreases x.len() - i,
    {
        if x[i] != y[i] {
            return false;
        }
        i = i + 1;
    }
    assert(x@ =~= y@);
    true
}

// ---------------------------------------------------------------------------
// Numbers
// ---------------------------------------------------------------------------

pub open spec fn digit_char(d: nat) -> char {
    if d == 0 { '0' } else if d == 1 { '1' } else if d == 2 { '2' } else if d == 3 { '3' }
    else if d == 4 { '4' } else if d == 5 { '5' } else if d == 6 { '6' } else if d == 7 { '7' }
    else if d == 8 { '8' } else { '9' }
}

/// The decimal digits of `n`, without leading zeros (`"0"` for zero).
pub open spec fn decimal(n: nat) -> Seq<char>
    decreases n,
{
    if n < 10 {
        seq![digit_char(n)]
    } else {
        decimal(n / 10).push(digit_char(n % 10))
    }
}

fn digit(d: usize) -> (c: char)
    requires
        d < 10,
    ensures
        c == digit_char(d as nat),
{
    if d == 0 { '0' } else if d == 1 { '1' } else if d == 2 { '2' } else if d == 3 { '3' }
    else if d == 4 { '4' } else if d == 5 { '5' } else if d == 6 { '6' } else if d == 7 { '7' }
    else if d == 8 { '8' } else { '9' }
}

/// The decimal form of `n`.
pub fn decimal_string(n: usize) -> (s: String)
    ensures
        s@ == decimal(n as nat),
    decreases n,
{
    if n < 10 {
        let mut s = String::new();
        s.push(digit(n));
        s
    } else {
        let mut s = decimal_string(n / 10);
        s.push(digit(n % 10));
        s
    }
}

/// The decimal form of `n`.
pub fn decimal_u64(n: u64) -> (s: String)
    ensures
        s@ == decimal(n as nat),
    decreases n,
{
    if n < 10 {
        let mut s = String::new();
        s.push(digit(n as usize));
        s
    } else {
        let mut s = decimal_u64(n / 10);
        s.push(digit((n % 10) as usize));
        s
    }
}

/// The decimal form of a signed integer, with `-` before a negative one.
pub open spec fn signed_decimal(i: int) -> Seq<char> {
    if i < 0 {
        seq!['-'] + decimal((-i) as nat)
    } else {
        decimal(i as nat)
    }
}

/// The decimal form of `i` (what `format!("{}", i)` gives).
pub fn decimal_i32(i: i32) -> (s: String)
    ensures
        s@ == signed_decimal(i as int),
{
    if i < 0 {
        let m: u64 = (0i64 - (i as i64)) as u64;
        let mut s = String::new();
        s.push('-');
        let d = decimal_u64(m);
        push_str(&mut s, d.as_str());
        assert(s@ == seq!['-'] + d@);
        s
    } else {
        decimal_u64(i as u64)
    }
}

/// Lower-case hexadecimal digit of `d < 16`.
pub open spec fn hex_char(d: nat) -> char {
    if d < 10 { digit_char(d) } else if d == 10 { 'a' } else if d == 11 { 'b' } else if d == 12 { 'c' }
    else if d == 13 { 'd' } else if d == 14 { 'e' } else { 'f' }
}

/// Two lower-case hexadecimal digits of a byte (`format!("{:02x}", b)`).
pub open spec fn hex_byte(b: u8) -> Seq<char> {
    seq![hex_char((b / 16) as nat), hex_char((b % 16) as nat)]
}

fn hex_digit(d: u8) -> (c: char)
    requires
        d < 16,
    ensures
        c == hex_char(d as nat),
{
    if d < 10 { digit(d as usize) } else if d == 10 { 'a' } else if d == 11 { 'b' } else if d == 12 { 'c' }
    else if d == 13 { 'd' } else if d == 14 { 'e' } else { 'f' }
}

/// Append the two hexadecimal digits of `b`.
pub fn push_hex_byte(dst: &mut String, b: u8)
    ensures
        final(dst)@ == old(dst)@ + hex_byte(b),
{
    dst.push(hex_digit(b / 16));
    dst.push(hex_digit(b % 16));
}

pub open spec fn is_digit(c: char) -> bool {
    '0' <= c && c <= '9'
}

pub open spec fn digit_value(c: char) -> nat {
    ((c as u32) - ('0' as u32)) as nat
}

/// The number that the decimal digits `s` spell.
pub open spec fn digits_value(s: Seq<char>) -> nat
    decreases s.len(),
{
    if s.len() == 0 {
        0
    } else {
        digits_value(s.drop_last()) * 10 + digit_value(s.last())
    }
}

/// `s` without one leading `+`.
pub open spec fn unsigned_digits(s: Seq<char>) -> Seq<char> {
    if s.len() > 0 && s[0] == '+' {
        s.skip(1)
    } else {
        s
    }
}

pub open spec fn all_digits(d: Seq<char>) -> bool {
    forall|i: int| 0 <= i < d.len() ==> is_digit(#[trigger] d[i])
}

/// What `usize::from_str` gives: an optional `+`, then one or more ASCII
/// digits whose value fits in `usize`.
pub open spec fn spec_parse_usize(s: Seq<char>) -> Option<nat> {
    let d = unsigned_digits(s);
    if d.len() == 0 || !all_digits(d) {
        None
    } else if digits_value(d) > usize::MAX {
        None
    } else {
        Some(digits_value(d))
    }
}

proof fn lemma_digits_mono(s: Seq<char>, j: int, k: int)
    requires
        0 <= j <= k <= s.len(),
    ensures
        digits_value(s.take(j)) <= digits_value(s.take(k)),
    decreases k - j,
{
    if j < k {
        lemma_digits_mono(s, j, k - 1);
        assert(s.take(k).drop_last() == s.take(k - 1));
    }
}

/// Parse a decimal `usize` the way `str::parse::<usize>` does.
pub fn parse_usize(s: &[char]) -> (r: Option<usize>)
    ensures
        r matches Some(v) ==> spec_parse_usize(s@) == Some(v as nat),
        r is None ==> spec_parse_usize(s@) is None,
{
    let n = s.len();
    let start: usize = if n > 0 && s[0] == '+' { 1 } else { 0 };
    let ghost d = unsigned_digits(s@);
    assert(d == s@.subrange(start as int, n as int));
    if start >= n {
        return None;
    }
    let mut i = start;
    let mut v: usize = 0;
    while i < n
        invariant
            start <= i <= n,
            n == s@.len(),
            d == s@.subrange(start as int, n as int),
            d == unsigned_digits(s@),
            forall|k: int| 0 <= k < i - start ==> is_digit(#[trigger] d[k]),
            v as nat == digits_value(d.take(i - start)),
        decreases n - i,
    {
        let c = s[i];
        assert(d[i - start] == c);
        if !('0' <= c && c <= '9') {
            assert(!is_digit(d[i - start]));
            assert(!all_digits(d));
            return None;
        }
        let dv = (c as u32 - '0' as u32) as usize;
        assert(d.take(i + 1 - start).drop_last() == d.take(i - start));
        assert(d.take(i + 1 - start).last() == c);
        match v.checked_mul(10) {
            None => {
                proof {
                    lemma_digits_mono(d, i + 1 - start, d.len() as int);
                    assert(d.take(d.len() as int) == d);
                    assert(v * 10 > usize::MAX);
                    assert(digits_value(d.take(i + 1 - start)) == v * 10 + digit_value(c));
                }
                return None;
            },
            Some(m) => match m.checked_add(dv) {
                None => {
                    proof {
                        lemma_digits_mono(d, i + 1 - start, d.len() as int);
                        assert(d.take(d.len() as int) == d);
                    }
                    return None;
                },
                Some(w) => {
                    v = w;
                },
            },
        }
        i = i + 1;
    }
    assert(d.take(d.len() as int) == d);
    Some(v)
}

/// What `u64::from_str` gives: an optional `+`, then one or more ASCII
/// digits whose value fits in `u64`.
pub open spec fn spec_parse_u64(s: Seq<char>) -> Option<nat> {
    let d = unsigned_digits(s);
    if d.len() == 0 || !all_digits(d) {
        None
    } else if digits_value(d) > u64::MAX {
        None
    } else {
        Some(digits_value(d))
    }
}

/// Parse a decimal `u64` the way `str::parse::<u64>` does.
pub fn parse_u64(s: &[char]) -> (r: Option<u64>)
    ensures
        r matches Some(v) ==> spec_parse_u64(s@) == Some(v as nat),
        r is None ==> spec_parse_u64(s@) is None,
{
    let n = s.len();
    let start: usize = if n > 0 && s[0] == '+' { 1 } else { 0 };
    let ghost d = unsigned_digits(s@);
    assert(d == s@.subrange(start as int, n as int));
    if start >= n {
        return None;
    }
    let mut i = start;
    let mut v: u64 = 0;
    while i < n
        invariant
            start <= i <= n,
            n == s@.len(),
            d == s@.subrange(start as int, n as int),
            d == unsigned_digits(s@),
            forall|k: int| 0 <= k < i - start ==> is_digit(#[trigger] d[k]),
            v as nat == digits_value(d.take(i - start)),
        decreases n - i,
    {
        let c = s[i];
        assert(d[i - start] == c);
        if !('0' <= c && c <= '9') {
            assert(!is_digit(d[i - start]));
            assert(!all_digits(d));
            return None;
        }
        let dv = (c as u32 - '0' as u32) as u64;
        assert(d.take(i + 1 - start).drop_last() == d.take(i - start));
        assert(d.take(i + 1 - start).last() == c);
        match v.checked_mul(10) {
            None => {
                proof {
                    lemma_digits_mono(d, i + 1 - start, d.len() as int);
                    assert(d.take(d.len() as int) == d);
                    assert(v * 10 > u64::MAX);
                    assert(digits_value(d.take(i + 1 - start)) == v * 10 + digit_value(c));
                }
                return None;
            },
            Some(m) => match m.checked_add(dv) {
                None => {
                    proof {
                        lemma_digits_mono(d, i + 1 - start, d.len() as int);
                        assert(d.take(d.len() as int) == d);
                    }
                    return None;
                },
                Some(w) => {
                    v = w;
                },
            },
        }
        i = i + 1;
    }
    assert(d.take(d.len() as int) == d);
    Some(v)
}

// ---------------------------------------------------------------------------
// Trimming
// ---------------------------------------------------------------------------

/// Drop leading whitespace.
pub open spec fn ltrim(s: Seq<char>) -> Seq<char>
    decreases s.len(),
{
    if s.len() > 0 && is_ws(s[0]) {
        ltrim(s.drop_first())
    } else {
        s
    }
}

/// Drop trailing whitespace.
pub open spec fn rtrim(s: Seq<char>) -> Seq<char>
    decreases s.len(),
{
    if s.len() > 0 && is_ws(s.last()) {
        rtrim(s.drop_last())
    } else {
        s
    }
}

/// Drop leading and trailing whitespace (what `str::trim` does).
pub open spec fn trim(s: Seq<char>) -> Seq<char> {
    rtrim(ltrim(s))
}

/// Index of the first non-whitespace character at or after `from`.
pub fn ltrim_index(s: &[char], from: usize) -> (i: usize)
    requires
        from <= s@.len(),
    ensures
        from <= i <= s@.len(),
        s@.skip(i as int) == ltrim(s@.skip(from as int)),
{
    let mut i = from;
    while i < s.len() && is_whitespace(s[i])
        invariant
            from <= i <= s@.len(),
            ltrim(s@.skip(from as int)) == ltrim(s@.skip(i as int)),
        decreases s.len() - i,
    {
        assert(s@.skip(i as int).drop_first() == s@.skip(i + 1));
        i = i + 1;
    }
    i
}

/// One past the last non-whitespace character of `s[from..to]`.
pub fn rtrim_index(s: &[char], from: usize, to: usize) -> (j: usize)
    requires
        from <= to <= s@.len(),
    ensures
        from <= j <= to,
        s@.subrange(from as int, j as int) == rtrim(s@.subrange(from as int, to as int)),
{
    let mut j = to;
    while j > from && is_whitespace(s[j - 1])
        invariant
            from <= j <= to,
            to <= s@.len(),
            rtrim(s@.subrange(from as int, to as int)) == rtrim(s@.subrange(from as int, j as int)),
        decreases j,
    {
        assert(s@.subrange(from as int, j as int).drop_last() == s@.subrange(
            from as int,
            j - 1,
        ));
        j = j - 1;
    }
    j
}

pub proof fn lemma_ltrim_skip(s: Seq<char>, k: int)
    requires
        0 <= k <= s.len(),
        forall|m: int| 0 <= m < k ==> is_ws(#[trigger] s[m]),
    ensures
        ltrim(s) == ltrim(s.skip(k)),
    decreases k,
{
    if k > 0 {
        assert(s.skip(1).skip(k - 1) == s.skip(k));
        assert(s.drop_first() == s.skip(1));
        lemma_ltrim_skip(s.skip(1), k - 1);
    } else {
        assert(s.skip(0) == s);
    }
}

/// Bounds of `trim(s[from..to])` inside `s`.
pub fn trim_bounds(s: &[char], from: usize, to: usize) -> (r: (usize, usize))
    requires
        from <= to <= s@.len(),
    ensures
        from <= r.0 <= r.1 <= to,
        s@.subrange(r.0 as int, r.1 as int) == trim(s@.subrange(from as int, to as int)),
{
    let mut i = from;
    while i < to && is_whitespace(s[i])
        invariant
            from <= i <= to,
            to <= s@.len(),
            ltrim(s@.subrange(from as int, to as int)) == ltrim(s@.subrange(i as int, to as int)),
        decreases to - i,
    {
        assert(s@.subrange(i as int, to as int).drop_first() == s@.subrange(i + 1, to as int));
        i = i + 1;
    }
    let j = rtrim_index(s, i, to);
    (i, j)
}

/// `trim` of a whole string, as a new `String`.
pub fn trim_string(s: &str) -> (r: String)
    ensures
        r@ == trim(s@),
{
    let v = chars_of(s);
    let (a, b) = trim_bounds(v.as_slice(), 0, v.len());
    assert(v@.subrange(0, v@.len() as int) == v@);
    sub_string(v.as_slice(), a, b)
}

// ---------------------------------------------------------------------------
// Searching
// ---------------------------------------------------------------------------

/// `needle` occurs in `s` at position `i`.
pub open spec fn occurs_at(s: Seq<char>, needle: Seq<char>, i: int) -> bool {
    0 <= i && i + needle.len() <= s.len() && s.subrange(i, i + needle.len()) == needle
}

/// `s` begins with `pre`.
pub open spec fn starts_with(s: Seq<char>, pre: Seq<char>) -> bool {
    occurs_at(s, pre, 0)
}

/// `needle` occurs somewhere in `s`.
pub open spec fn contains(s: Seq<char>, needle: Seq<char>) -> bool {
    exists|i: int| occurs_at(s, needle, i)
}

/// First position at or after `i` where `needle` occurs in `s`.
pub open spec fn find_from(s: Seq<char>, needle: Seq<char>, i: int) -> Option<int>
    decreases s.len() - i,
{
    if i < 0 || i + needle.len() > s.len() {
        None
    } else if occurs_at(s, needle, i) {
        Some(i)
    } else if i >= s.len() {
        None
    } else {
        find_from(s, needle, i + 1)
    }
}

/// First position where `needle` occurs in `s`.
pub open spec fn find(s: Seq<char>, needle: Seq<char>) -> Option<int> {
    find_from(s, needle, 0)
}

pub proof fn lemma_find_from(s: Seq<char>, needle: Seq<char>, i: int)
    requires
        0 <= i,
    ensures
        find_from(s, needle, i) matches Some(k) ==> i <= k && occurs_at(s, needle, k) && forall|
            m: int,
        | i <= m < k ==> !occurs_at(s, needle, m),
        find_from(s, needle, i) is None ==> forall|m: int| i <= m ==> !occurs_at(s, needle, m),
    decreases s.len() - i,
{
    if i + needle.len() <= s.len() && !occurs_at(s, needle, i) && i < s.len() {
        lemma_find_from(s, needle, i + 1);
    }
    if i + needle.len() <= s.len() && !occurs_at(s, needle, i) && i >= s.len() {
        assert(needle.len() == 0);
        assert(s.subrange(i, i) =~= needle);
    }
}

pub proof fn lemma_find_contains(s: Seq<char>, needle: Seq<char>)
    ensures
        (find(s, needle) is Some) == contains(s, needle),
{
    lemma_find_from(s, needle, 0);
    if find(s, needle) is Some {
        let k = find(s, needle)->0;
        assert(occurs_at(s, needle, k));
    }
}

/// Whether `needle` occurs in `s` at position `i`.
pub fn matches_at(s: &[char], needle: &[char], i: usize) -> (r: bool)
    ensures
        r == occurs_at(s@, needle@, i as int),
{
    if i > s.len() || needle.len() > s.len() - i {
        return false;
    }
    let mut k: usize = 0;
    while k < needle.len()
        invariant
            i + needle@.len() <= s@.len(),
            i + needle.len() <= s.len(),
            k <= needle@.len(),
            forall|m: int| 0 <= m < k ==> s@[i + m] == needle@[m],
        decreases needle.len() - k,
    {
        if s[i + k] != needle[k] {
            assert(s@.subrange(i as int, i + needle@.len())[k as int] != needle@[k as int]);
            return false;
        }
        k = k + 1;
    }
    assert(s@.subrange(i as int, i + needle@.len()) =~= needle@);
    true
}

/// First position at or after `from` where `needle` occurs.
pub fn find_chars_from(s: &[char], needle: &[char], from: usize) -> (r: Option<usize>)
    ensures
        r matches Some(k) ==> find_from(s@, needle@, from as int) == Some(k as int),
        r is None ==> find_from(s@, needle@, from as int) is None,
{
    let mut i = from;
    if i > s.len() || needle.len() > s.len() - i {
        return None;
    }
    let last = s.len() - needle.len();
    while i <= last
        invariant
            from <= i,
            last == s@.len() - needle@.len(),
            find_from(s@, needle@, from as int) == find_from(s@, needle@, i as int),
        decreases s.len() - i,
    {
        if matches_at(s, needle, i) {
            return Some(i);
        }
        if i == s.len() {
            return None;
        }
        i = i + 1;
    }
    None
}

/// First position where `needle` occurs.
pub fn find_chars(s: &[char], needle: &[char]) -> (r: Option<usize>)
    ensures
        r matches Some(k) ==> find(s@, needle@) == Some(k as int),
        r is None ==> find(s@, needle@) is None,
{
    find_chars_from(s, needle, 0)
}

/// Whether `needle` occurs anywhere in `s`.
pub fn contains_chars(s: &[char], needle: &[char]) -> (r: bool)
    ensures
        r == contains(s@, needle@),
{
    proof {
        lemma_find_contains(s@, needle@);
    }
    find_chars(s, needle).is_some()
}

/// Whether the string `needle` occurs in `s`.
pub fn str_contains(s: &str, needle: &str) -> (r: bool)
    ensures
        r == contains(s@, needle@),
{
    let a = chars_of(s);
    let b = chars_of(needle);
    contains_chars(a.as_slice(), b.as_slice())
}

/// Whether the string `s` begins with `pre`.
pub fn str_starts_with(s: &str, pre: &str) -> (r: bool)
    ensures
        r == starts_with(s@, pre@),
{
    let a = chars_of(s);
    let b = chars_of(pre);
    matches_at(a.as_slice(), b.as_slice(), 0)
}

/// First index at or after `from` holding `c`.
pub open spec fn find_char_from(s: Seq<char>, c: char, i: int) -> Option<int>
    decreases s.len() - i,
{
    if i < 0 || i >= s.len() {
        None
    } else if s[i] == c {
        Some(i)
    } else {
        find_char_from(s, c, i + 1)
    }
}

pub proof fn lemma_find_char_from(s: Seq<char>, c: char, i: int)
    requires
        0 <= i,
    ensures
        find_char_from(s, c, i) matches Some(k) ==> i <= k < s.len() && s[k] == c && forall|
            m: int,
        | i <= m < k ==> s[m] != c,
        find_char_from(s, c, i) is None ==> forall|m: int| i <= m < s.len() ==> s[m] != c,
    decreases s.len() - i,
{
    if i < s.len() && s[i] != c {
        lemma_find_char_from(s, c, i + 1);
    }
}

pub fn find_char(s: &[char], c: char, from: usize) -> (r: Option<usize>)
    ensures
        r matches Some(k) ==> find_char_from(s@, c, from as int) == Some(k as int),
        r is None ==> find_char_from(s@, c, from as int) is None,
{
    let mut i = from;
    while i < s.len()
        invariant
            from <= i,
            find_char_from(s@, c, from as int) == find_char_from(s@, c, i as int),
        decreases s.len() - i,
    {
        if s[i] == c {
            return Some(i);
        }
        i = i + 1;
    }
    None
}

// ---------------------------------------------------------------------------
// Splitting
// ---------------------------------------------------------------------------

/// Pieces of `s[i..]` separated by `sep` (what `str::split(sep)` yields; an
/// empty input still yields one empty piece).
pub open spec fn split_from(s: Seq<char>, sep: char, i: int) -> Seq<Seq<char>>
    decreases s.len() - i, 1int,
{
    if i < 0 || i > s.len() {
        seq![]
    } else {
        match find_char_from(s, sep, i) {
            None => seq![s.subrange(i, s.len() as int)],
            Some(k) => if k < i || k >= s.len() {
                seq![]
            } else {
                seq![s.subrange(i, k)] + split_from(s, sep, k + 1)
            },
        }
    }
}

pub open spec fn split(s: Seq<char>, sep: char) -> Seq<Seq<char>> {
    split_from(s, sep, 0)
}

/// Split `s` at every `sep`.
pub fn split_chars(s: &[char], sep: char) -> (r: Vec<Vec<char>>)
    ensures
        r@.len() == split(s@, sep).len(),
        forall|k: int| 0 <= k < r@.len() ==> #[trigger] r@[k]@ == split(s@, sep)[k],
{
    let mut out: Vec<Vec<char>> = Vec::new();
    let mut i: usize = 0;
    let n = s.len();
    let ghost mut done: Seq<Seq<char>> = seq![];
    loop
        invariant
            i <= s@.len(),
            n == s@.len(),
            out@.len() == done.len(),
            forall|k: int| 0 <= k < out@.len() ==> #[trigger] out@[k]@ == done[k],
            done + split_from(s@, sep, i as int) == split(s@, sep),
        decreases s@.len() - i,
    {
        proof {
            lemma_find_char_from(s@, sep, i as int);
        }
        match find_char(s, sep, i) {
            None => {
                let piece = sub_vec(s, i, s.len());
                proof {
                    done = done.push(piece@);
                }
                out.push(piece);
                assert(done == split(s@, sep));
                return out;
            },
            Some(k) => {
                let piece = sub_vec(s, i, k);
                proof {
                    assert(split_from(s@, sep, i as int) == seq![s@.subrange(i as int, k as int)]
                        + split_from(s@, sep, k + 1));
                    assert(done + split_from(s@, sep, i as int) == done.push(piece@) + split_from(
                        s@,
                        sep,
                        k + 1,
                    ));
                    done = done.push(piece@);
                }
                out.push(piece);
                i = k + 1;
            },
        }
    }
}

/// A line as `str::lines` yields it: the text up to a `\n`, with one `\r`
/// before that `\n` removed.
pub open spec fn strip_cr(line: Seq<char>) -> Seq<char> {
    if line.len() > 0 && line.last() == '\r' {
        line.drop_last()
    } else {
        line
    }
}

/// Lines of `s[i..]` as `str::lines` yields them: split at `\n`, a `\r`
/// just before a `\n` dropped, and no empty line after a final `\n`.
pub open spec fn lines_from(s: Seq<char>, i: int) -> Seq<Seq<char>>
    decreases s.len() - i,
{
    if i < 0 || i >= s.len() {
        seq![]
    } else {
        match find_char_from(s, '\n', i) {
            None => seq![s.subrange(i, s.len() as int)],
            Some(k) => if k < i || k >= s.len() {
                seq![]
            } else {
                seq![strip_cr(s.subrange(i, k))] + lines_from(s, k + 1)
            },
        }
    }
}

pub open spec fn lines(s: Seq<char>) -> Seq<Seq<char>> {
    lines_from(s, 0)
}

/// Split `s` into lines.
pub fn lines_chars(s: &[char]) -> (r: Vec<Vec<char>>)
    ensures
        r@.len() == lines(s@).len(),
        forall|k: int| 0 <= k < r@.len() ==> #[trigger] r@[k]@ == lines(s@)[k],
{
    let mut out: Vec<Vec<char>> = Vec::new();
    let mut i: usize = 0;
    let ghost mut done: Seq<Seq<char>> = seq![];
    while i < s.len()
        invariant
            i <= s@.len(),
            out@.len() == done.len(),
            forall|k: int| 0 <= k < out@.len() ==> #[trigger] out@[k]@ == done[k],
            done + lines_from(s@, i as int) == lines(s@),
        decreases s@.len() - i,
    {
        proof {
            lemma_find_char_from(s@, '\n', i as int);
        }
        match find_char(s, '\n', i) {
            None => {
                let piece = sub_vec(s, i, s.len());
                proof {
                    done = done.push(piece@);
                }
                out.push(piece);
                assert(done == lines(s@));
                return out;
            },
            Some(k) => {
                let mut end = k;
                if end > i && s[end - 1] == '\r' {
                    end = end - 1;
                }
                let piece = sub_vec(s, i, end);
                proof {
                    assert(piece@ == strip_cr(s@.subrange(i as int, k as int)));
                    assert(lines_from(s@, i as int) == seq![piece@] + lines_from(s@, k + 1));
                    assert(done + lines_from(s@, i as int) == done.push(piece@) + lines_from(
                        s@,
                        k + 1,
                    ));
                    done = done.push(piece@);
                }
                out.push(piece);
                i = k + 1;
            },
        }
    }
    assert(done == lines(s@));
    out
}

/// ASCII-lowercase every character.
pub fn ascii_lower_chars(s: &[char]) -> (r: Vec<char>)
    ensures
        r@ == ascii_lower_seq(s@),
{
    let mut out: Vec<char> = Vec::new();
    let mut i: usize = 0;
    while i < s.len()
        invariant
            i <= s@.len(),
            out@ == ascii_lower_seq(s@.take(i as int)),
        decreases s.len() - i,
    {
        out.push(to_ascii_lower_char(s[i]));
        assert(ascii_lower_seq(s@.take(i + 1)) =~= ascii_lower_seq(s@.take(i as int)).push(
            ascii_lower(s@[i as int]),
        ));
        i = i + 1;
    }
    assert(s@.take(s@.len() as int) == s@);
    out
}

// ---------------------------------------------------------------------------
// Byte offsets
// ---------------------------------------------------------------------------

/// Byte offset `b` falls on a character boundary of `s`.
pub open spec fn is_char_boundary(s: Seq<char>, b: int) -> bool {
    exists|k: int| 0 <= k <= s.len() && utf8_len(s.take(k)) == b
}

/// The characters of `s` before byte offset `b` (`&s[..b]`).
pub open spec fn bytes_prefix(s: Seq<char>, b: int) -> Seq<char> {
    s.take(choose|k: int| 0 <= k <= s.len() && utf8_len(s.take(k)) == b)
}

/// The characters of `s` from byte offset `b` on (`&s[b..]`).
pub open spec fn bytes_suffix(s: Seq<char>, b: int) -> Seq<char> {
    s.skip(choose|k: int| 0 <= k <= s.len() && utf8_len(s.take(k)) == b)
}

/// Longer prefixes have more bytes.
pub proof fn lemma_utf8_len_take_strict(s: Seq<char>, i: int, j: int)
    requires
        0 <= i < j <= s.len(),
    ensures
        utf8_len(s.take(i)) < utf8_len(s.take(j)),
{
    let t = s.take(j);
    lemma_utf8_len_concat(t.take(i), t.skip(i));
    assert(t.take(i) + t.skip(i) == t);
    assert(t.take(i) == s.take(i));
    lemma_utf8_len_ge_len(t.skip(i));
}

/// A prefix is fixed by its byte length.
pub proof fn lemma_bytes_prefix(s: Seq<char>, k: int)
    requires
        0 <= k <= s.len(),
    ensures
        bytes_prefix(s, utf8_len(s.take(k)) as int) == s.take(k),
        bytes_suffix(s, utf8_len(s.take(k)) as int) == s.skip(k),
        is_char_boundary(s, utf8_len(s.take(k)) as int),
{
    let b = utf8_len(s.take(k)) as int;
    let c = choose|m: int| 0 <= m <= s.len() && utf8_len(s.take(m)) == b;
    assert(0 <= k <= s.len() && utf8_len(s.take(k)) == b);
    if c < k {
        lemma_utf8_len_take_strict(s, c, k);
    } else if c > k {
        lemma_utf8_len_take_strict(s, k, c);
    }
}

/// The character index at byte offset `b`, on a character boundary.
fn boundary_index(v: &Vec<char>, b: usize) -> (k: usize)
    requires
        is_char_boundary(v@, b as int),
    ensures
        k <= v@.len(),
        utf8_len(v@.take(k as int)) == b,
        bytes_prefix(v@, b as int) == v@.take(k as int),
        bytes_suffix(v@, b as int) == v@.skip(k as int),
{
    let n = v.len();
    let ghost k0 = choose|k: int| 0 <= k <= v@.len() && utf8_len(v@.take(k)) == b;
    let mut i: usize = 0;
    let mut bytes: usize = 0;
    proof {
        assert(v@.take(0) == Seq::<char>::empty());
    }
    while bytes < b
        invariant
            n == v@.len(),
            0 <= k0 <= n,
            utf8_len(v@.take(k0)) == b,
            i <= k0,
            bytes == utf8_len(v@.take(i as int)),
        decreases k0 - i,
    {
        proof {
            if i == k0 {
                assert(false);
            }
            lemma_utf8_len_take(v@, i as int);
            lemma_utf8_len_prefix_le(v@.take(k0), i + 1);
            assert(v@.take(k0).take(i + 1) == v@.take(i + 1));
            if i + 1 < k0 {
                lemma_utf8_len_take_strict(v@, i + 1, k0);
            }
        }
        bytes = bytes + char_len_utf8(v[i]);
        i = i + 1;
    }
    proof {
        if i < k0 {
            lemma_utf8_len_take_strict(v@, i as int, k0);
        }
        lemma_bytes_prefix(v@, k0);
    }
    i
}

/// `&s[b..]`, for a byte offset `b` on a character boundary.
pub fn suffix_bytes(s: &str, b: usize) -> (r: String)
    requires
        is_char_boundary(s@, b as int),
    ensures
        r@ == bytes_suffix(s@, b as int),
{
    let v = chars_of(s);
    let k = boundary_index(&v, b);
    let n = v.len();
    proof {
        assert(v@.subrange(k as int, n as int) == v@.skip(k as int));
    }
    sub_string(v.as_slice(), k, n)
}

/// `&s[..b]`, for a byte offset `b` on a character boundary.
pub fn prefix_bytes(s: &str, b: usize) -> (r: String)
    requires
        is_char_boundary(s@, b as int),
    ensures
        r@ == bytes_prefix(s@, b as int),
{
    let v = chars_of(s);
    let n = v.len();
    let ghost k0 = choose|k: int| 0 <= k <= s@.len() && utf8_len(s@.take(k)) == b;
    let mut i: usize = 0;
    let mut bytes: usize = 0;
    proof {
        assert(v@.take(0) == Seq::<char>::empty());
    }
    while bytes < b
        invariant
            n == v@.len(),
            v@ == s@,
            0 <= k0 <= n,
            utf8_len(s@.take(k0)) == b,
            i <= k0,
            bytes == utf8_len(v@.take(i as int)),
        decreases k0 - i,
    {
        proof {
            if i == k0 {
                assert(false);
            }
            lemma_utf8_len_take(v@, i as int);
            lemma_utf8_len_prefix_le(v@.take(k0), i + 1);
            assert(v@.take(k0).take(i + 1) == v@.take(i + 1));
            if i + 1 < k0 {
                lemma_utf8_len_take_strict(v@, i + 1, k0);
            }
        }
        bytes = bytes + char_len_utf8(v[i]);
        i = i + 1;
    }
    proof {
        if i < k0 {
            lemma_utf8_len_take_strict(v@, i as int, k0);
        }
        lemma_bytes_prefix(s@, k0);
    }
    sub_string(v.as_slice(), 0, i)
}

// ---------------------------------------------------------------------------
// Words
// ---------------------------------------------------------------------------

/// The maximal runs of non-whitespace characters of `s`, in order
/// (what `str::split_whitespace` yields).
pub open spec fn ws_words(s: Seq<char>) -> Seq<Seq<char>>
    decreases s.len(),
{
    if s.len() == 0 {
        seq![]
    } else {
        let p = ws_words(s.drop_last());
        let c = s.last();
        if is_ws(c) {
            p
        } else if s.len() >= 2 && !is_ws(s[s.len() - 2]) {
            p.drop_last().push(p.last().push(c))
        } else {
            p.push(seq![c])
        }
    }
}

proof fn lemma_ws_words_nonempty(s: Seq<char>)
    requires
        s.len() > 0,
        !is_ws(s.last()),
    ensures
        ws_words(s).len() > 0,
    decreases s.len(),
{
}

/// Split `s` at whitespace, dropping empty pieces.
pub fn split_whitespace(s: &str) -> (r: Vec<String>)
    ensures
        r@.map_values(|w: String| w@) == ws_words(s@),
{
    let v = chars_of(s);
    let n = v.len();
    let mut out: Vec<String> = Vec::new();
    let mut i: usize = 0;
    while i < n
        invariant
            n == v@.len(),
            v@ == s@,
            i <= n,
            out@.map_values(|w: String| w@) == ws_words(v@.take(i as int)),
        decreases n - i,
    {
        let c = v[i];
        let ghost t = v@.take(i + 1);
        assert(t.drop_last() == v@.take(i as int));
        assert(t.last() == c);
        if is_whitespace(c) {
        } else if i >= 1 && !is_whitespace(v[i - 1]) {
            proof {
                assert(t[t.len() - 2] == v@[i - 1]);
                lemma_ws_words_nonempty(v@.take(i as int));
            }
            let k = out.len() - 1;
            let mut w = out.remove(k);
            w.push(c);
            out.push(w);
            proof {
                assert(out@.map_values(|w: String| w@) =~= ws_words(t));
            }
        } else {
            let mut w = String::new();
            w.push(c);
            out.push(w);
            proof {
                assert(out@.map_values(|w: String| w@) =~= ws_words(t));
            }
        }
        i = i + 1;
    }
    assert(v@.take(n as int) == v@);
    out
}

/// The pieces of `ws` joined with `sep` between them.
pub open spec fn join_with(ws: Seq<Seq<char>>, sep: Seq<char>) -> Seq<char>
    decreases ws.len(),
{
    if ws.len() == 0 {
        seq![]
    } else if ws.len() == 1 {
        ws[0]
    } else {
        join_with(ws.drop_last(), sep) + sep + ws.last()
    }
}

/// Join strings with a separator (`[..].join(sep)`).
pub fn join_strings(ws: &Vec<String>, sep: &str) -> (r: String)
    ensures
        r@ == join_with(ws@.map_values(|w: String| w@), sep@),
{
    let mut r = String::new();
    let mut i: usize = 0;
    while i < ws.len()
        invariant
            i <= ws@.len(),
            r@ == join_with(ws@.take(i as int).map_values(|w: String| w@), sep@),
        decreases ws.len() - i,
    {
        let ghost p = ws@.take(i as int).map_values(|w: String| w@);
        let ghost q = ws@.take(i + 1).map_values(|w: String| w@);
        assert(q.drop_last() == p);
        assert(q.last() == ws@[i as int]@);
        if i > 0 {
            push_str(&mut r, sep);
        }
        push_str(&mut r, ws[i].as_str());
        i = i + 1;
    }
    assert(ws@.take(ws@.len() as int) == ws@);
    r
}

} // verus!
