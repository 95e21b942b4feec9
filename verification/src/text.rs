//! Byte and text helpers: UTF-8 conversion, decimal and hex rendering,
//! and building strings piece by piece.

use vstd::prelude::*;
use vstd::utf8::*;
use vstd::string::*;

verus! {

/// The ASCII decimal digits of a natural number, most significant first.
pub open spec fn nat_digits(n: nat) -> Seq<u8>
    decreases n,
{
    if n < 10 {
        seq![(48 + n) as u8]
    } else {
        nat_digits(n / 10).push((48 + n % 10) as u8)
    }
}

/// The decimal rendering of an integer as Rust's `Display` writes it:
/// a `-` for negatives, no leading zeros, no `+`.
pub open spec fn int_decimal(v: int) -> Seq<u8> {
    if v < 0 {
        seq![45u8] + nat_digits((-v) as nat)
    } else {
        nat_digits(v as nat)
    }
}

/// Whether a byte is an ASCII decimal digit.
pub open spec fn is_digit_byte(b: u8) -> bool {
    48 <= b <= 57
}

pub proof fn lemma_nat_digits_are_digits(n: nat)
    ensures
        forall|i: int| 0 <= i < nat_digits(n).len() ==> is_digit_byte(#[trigger] nat_digits(n)[i]),
        nat_digits(n).len() >= 1,
    decreases n,
{
    if n >= 10 {
        lemma_nat_digits_are_digits(n / 10);
    }
}

pub fn push_nat_digits(n: u64, out: &mut Vec<u8>)
    ensures
        final(out)@ == old(out)@ + nat_digits(n as nat),
    decreases n,
{
    if n >= 10 {
        push_nat_digits(n / 10, out);
    }
    let d: u8 = (n % 10) as u8;
    out.push(48 + d);
    proof {
        if n >= 10 {
            assert(nat_digits(n as nat) == nat_digits((n / 10) as nat).push((48 + n % 10) as u8));
        }
    }
}

/// Appends the decimal rendering of `v` to `out`.
pub fn push_i64_decimal(v: i64, out: &mut Vec<u8>)
    ensures
        final(out)@ == old(out)@ + int_decimal(v as int),
{
    if v < 0 {
        out.push(45u8);
        let mag: u64 = (-(v as i128)) as u64;
        push_nat_digits(mag, out);
        proof {
            assert(seq![45u8] + nat_digits(mag as nat) == int_decimal(v as int));
        }
    } else {
        push_nat_digits(v as u64, out);
    }
}

/// The lowercase hex digit for a value below 16.
pub open spec fn hex_digit(n: int) -> char {
    if n < 10 {
        (48 + n) as char
    } else {
        (87 + n) as char
    }
}

/// Lowercase hexadecimal rendering of bytes, two digits per byte.
pub open spec fn hex_lower(b: Seq<u8>) -> Seq<char>
    decreases b.len(),
{
    if b.len() == 0 {
        Seq::empty()
    } else {
        seq![hex_digit((b[0] / 16) as int), hex_digit((b[0] % 16) as int)] + hex_lower(b.drop_first())
    }
}

/// The value of a hex digit in either case, if `c` is one.
pub open spec fn hex_value(c: char) -> Option<int> {
    if '0' <= c <= '9' {
        Some(c as int - 48)
    } else if 'a' <= c <= 'f' {
        Some(c as int - 87)
    } else if 'A' <= c <= 'F' {
        Some(c as int - 55)
    } else {
        None
    }
}

/// Whether every character of `s` is a hex digit.
pub open spec fn all_hex(s: Seq<char>) -> bool {
    forall|i: int| 0 <= i < s.len() ==> #[trigger] hex_value(s[i]) is Some
}

/// Decoding of an even-length, all-hex string into bytes, two digits per byte.
pub open spec fn hex_decode(s: Seq<char>) -> Seq<u8>
    decreases s.len(),
{
    if s.len() < 2 {
        Seq::empty()
    } else {
        seq![(hex_value(s[0]).unwrap() * 16 + hex_value(s[1]).unwrap()) as u8] + hex_decode(
            s.subrange(2, s.len() as int),
        )
    }
}

/// Converts bytes to a `String` with `String::from_utf8`.
///
/// Claims, as std documents it, that the conversion succeeds exactly when the
/// bytes are well-formed UTF-8, and that the string then holds those bytes.
#[verifier::external_body]
pub(crate) fn utf8_to_string(bytes: Vec<u8>) -> (res: Option<String>)
    ensures
        res is Some <==> valid_utf8(bytes@),
        res matches Some(s) ==> encode_utf8(s@) == bytes@ && s@ == decode_utf8(bytes@),
{
    String::from_utf8(bytes).ok()
}

/// The UTF-8 encoding of a concatenation is the concatenation of the encodings.
pub proof fn lemma_encode_utf8_append(a: Seq<char>, b: Seq<char>)
    ensures
        encode_utf8(a + b) == encode_utf8(a) + encode_utf8(b),
    decreases a.len(),
{
    if a.len() == 0 {
        assert(a + b =~= b);
        assert(encode_utf8(a) =~= Seq::<u8>::empty());
        assert(encode_utf8(a) + encode_utf8(b) =~= encode_utf8(b));
    } else {
        lemma_encode_utf8_append(a.drop_first(), b);
        assert((a + b).drop_first() =~= a.drop_first() + b);
        assert((a + b)[0] == a[0]);
        assert(encode_utf8(a + b) =~= encode_utf8(a) + encode_utf8(b));
    }
}

/// The UTF-8 bytes of a string.
pub fn string_bytes(s: &String) -> (res: Vec<u8>)
    ensures
        res@ == encode_utf8(s@),
{
    s.as_str().as_bytes_vec()
}

/// The UTF-8 bytes of a string slice.
pub fn str_bytes(s: &str) -> (res: Vec<u8>)
    ensures
        res@ == encode_utf8(s@),
{
    s.as_bytes_vec()
}

/// Rust's `Debug` rendering of a string (quoted and escaped), as `{:?}` writes it.
pub uninterp spec fn debug_quoted(s: Seq<char>) -> Seq<char>;

/// Renders `s` with `format!("{s:?}")`.
///
/// Claims only that the result is a function of the characters of `s`.
#[verifier::external_body]
pub(crate) fn debug_quote(s: &str) -> (res: String)
    ensures
        res@ == debug_quoted(s@),
{
    format!("{s:?}")
}

/// Appends one character to a string with `String::push`.
///
/// Claims, as std documents it, that the character is added at the end.
#[verifier::external_body]
pub(crate) fn push_char(s: &mut String, c: char)
    ensures
        final(s)@ == old(s)@.push(c),
{
    s.push(c)
}

/// A new string holding the characters of `s`.
pub fn owned(s: &str) -> (res: String)
    ensures
        res@ == s@,
{
    String::from_str(s)
}

/// The concatenation of the given pieces.
pub fn concat3(a: &str, b: &str, c: &str) -> (res: String)
    ensures
        res@ == a@ + b@ + c@,
{
    let mut r = String::from_str(a);
    r.append(b);
    r.append(c);
    r
}

/// The concatenation of the given pieces.
pub fn concat2(a: &str, b: &str) -> (res: String)
    ensures
        res@ == a@ + b@,
{
    let mut r = String::from_str(a);
    r.append(b);
    r
}

/// Maps each byte to the character with the same code point (Latin-1 style),
/// a lossless, order-preserving rendering of arbitrary bytes as text.
pub open spec fn latin1(b: Seq<u8>) -> Seq<char> {
    Seq::new(b.len(), |i: int| b[i] as char)
}

/// Renders bytes as text one character per byte (see [`latin1`]).
pub fn bytes_to_lossy_string(data: &[u8]) -> (res: String)
    ensures
        res@ == latin1(data@),
{
    let mut s = String::new();
    let mut i: usize = 0;
    while i < data.len()
        invariant
            0 <= i <= data@.len(),
            s@ == latin1(data@.subrange(0, i as int)),
        decreases data@.len() - i,
    {
        let c: char = data[i] as char;
        push_char(&mut s, c);
        i = i + 1;
        assert(s@ =~= latin1(data@.subrange(0, i as int)));
    }
    assert(data@.subrange(0, data@.len() as int) =~= data@);
    s
}

/// Whether `s` starts with `prefix` (as character sequences).
pub open spec fn seq_starts_with<T>(s: Seq<T>, prefix: Seq<T>) -> bool {
    prefix.len() <= s.len() && s.subrange(0, prefix.len() as int) == prefix
}

/// Whether the characters of `s` start with those of `prefix`.
pub fn str_starts_with(s: &str, prefix: &str) -> (res: bool)
    ensures
        res == seq_starts_with(s@, prefix@),
{
    let n = s.unicode_len();
    let m = prefix.unicode_len();
    if m > n {
        return false;
    }
    let mut i: usize = 0;
    while i < m
        invariant
            m == prefix@.len(),
            n == s@.len(),
            m <= n,
            0 <= i <= m,
            forall|j: int| 0 <= j < i ==> s@[j] == prefix@[j],
        decreases m - i,
    {
        if s.get_char(i) != prefix.get_char(i) {
            assert(s@.subrange(0, m as int)[i as int] != prefix@[i as int]);
            return false;
        }
        i = i + 1;
    }
    assert(s@.subrange(0, m as int) =~= prefix@);
    true
}

} // verus!

verus! {

/// `i` is the first position in `0..n` where `p` holds, or `n` when none does.
pub open spec fn is_first_pos(n: int, p: spec_fn(int) -> bool, i: int) -> bool {
    0 <= i <= n && (i < n ==> p(i)) && forall|j: int| 0 <= j < i ==> !#[trigger] p(j)
}

/// The first position in `0..n` where `p` holds, or `n` when none does.
pub open spec fn first_pos(n: int, p: spec_fn(int) -> bool) -> int {
    choose|i: int| is_first_pos(n, p, i)
}

/// `i` is the last position in `0..n` where `p` holds, or `-1` when none does.
pub open spec fn is_last_pos(n: int, p: spec_fn(int) -> bool, i: int) -> bool {
    -1 <= i < n && (i >= 0 ==> p(i)) && forall|j: int| i < j < n ==> !#[trigger] p(j)
}

/// The last position in `0..n` where `p` holds, or `-1` when none does.
pub open spec fn last_pos(n: int, p: spec_fn(int) -> bool) -> int {
    choose|i: int| is_last_pos(n, p, i)
}

/// A position found by a scan is the first position.
pub proof fn lemma_first_pos(n: int, p: spec_fn(int) -> bool, i: int)
    requires
        is_first_pos(n, p, i),
    ensures
        first_pos(n, p) == i,
{
    let k = first_pos(n, p);
    assert(is_first_pos(n, p, k));
    if k < i {
        assert(!p(k));
    } else if i < k {
        assert(!p(i));
    }
}

/// A position found by a backward scan is the last position.
pub proof fn lemma_last_pos(n: int, p: spec_fn(int) -> bool, i: int)
    requires
        is_last_pos(n, p, i),
    ensures
        last_pos(n, p) == i,
{
    let k = last_pos(n, p);
    assert(is_last_pos(n, p, k));
    if k < i {
        assert(!p(i));
    } else if i < k {
        assert(!p(k));
    }
}

/// Whether `pat` occurs in `s` at position `i`.
pub open spec fn sub_at(s: Seq<char>, i: int, pat: Seq<char>) -> bool {
    0 <= i && i + pat.len() <= s.len() && s.subrange(i, i + pat.len()) == pat
}

/// Whether `c` is white space as `char::is_whitespace` (and so `str::trim`)
/// defines it: the Unicode `White_Space` property.
pub open spec fn is_white_space(c: char) -> bool {
    ('\u{9}' <= c <= '\u{d}') || c == ' ' || c == '\u{85}' || c == '\u{a0}' || c == '\u{1680}'
        || ('\u{2000}' <= c <= '\u{200a}') || c == '\u{2028}' || c == '\u{2029}' || c == '\u{202f}'
        || c == '\u{205f}' || c == '\u{3000}'
}

/// `s` without its leading white space.
pub open spec fn trim_start(s: Seq<char>) -> Seq<char>
    decreases s.len(),
{
    if s.len() > 0 && is_white_space(s[0]) {
        trim_start(s.drop_first())
    } else {
        s
    }
}

/// `s` without its trailing white space.
pub open spec fn trim_end(s: Seq<char>) -> Seq<char>
    decreases s.len(),
{
    if s.len() > 0 && is_white_space(s.last()) {
        trim_end(s.drop_last())
    } else {
        s
    }
}

/// `s` without leading and trailing white space (`str::trim`).
pub open spec fn trimmed(s: Seq<char>) -> Seq<char> {
    trim_end(trim_start(s))
}

/// A character with ASCII upper case mapped to lower case.
pub open spec fn ascii_lower_char(c: char) -> char {
    if 'A' <= c <= 'Z' {
        ((c as u32) + 32) as char
    } else {
        c
    }
}

/// `s` with ASCII upper case mapped to lower case (`str::to_ascii_lowercase`).
pub open spec fn ascii_lower(s: Seq<char>) -> Seq<char> {
    Seq::new(s.len(), |i: int| ascii_lower_char(s[i]))
}

/// Whether `pat` occurs somewhere in `s`.
pub open spec fn has_sub(s: Seq<char>, pat: Seq<char>) -> bool {
    exists|i: int| sub_at(s, i, pat)
}

/// Trailing-space removal keeps a prefix, and keeps every position that does
/// not hold white space.
pub proof fn lemma_trim_end(s: Seq<char>)
    ensures
        trim_end(s).len() <= s.len(),
        trim_end(s) == s.subrange(0, trim_end(s).len() as int),
        forall|i: int| 0 <= i < s.len() && !is_white_space(s[i]) ==> i < trim_end(s).len(),
    decreases s.len(),
{
    if s.len() > 0 && is_white_space(s.last()) {
        let d = s.drop_last();
        lemma_trim_end(d);
        assert(trim_end(s) == trim_end(d));
        assert(d.subrange(0, trim_end(d).len() as int) =~= s.subrange(0, trim_end(d).len() as int));
        assert forall|i: int| 0 <= i < s.len() && !is_white_space(s[i]) implies i < trim_end(s).len() by {
            assert(i < s.len() - 1);
            assert(d[i] == s[i]);
        }
    } else {
        assert(s.subrange(0, s.len() as int) =~= s);
    }
}

/// The positions of `s` holding character `c`.
pub open spec fn char_is(s: Seq<char>, c: char) -> spec_fn(int) -> bool {
    |i: int| s[i] == c
}

/// The first position of character `c` in `s`, or `s.len()` when absent.
pub open spec fn first_char_pos(s: Seq<char>, c: char) -> int {
    first_pos(s.len() as int, char_is(s, c))
}

/// The last position of character `c` in `s`, or `-1` when absent.
pub open spec fn last_char_pos(s: Seq<char>, c: char) -> int {
    last_pos(s.len() as int, char_is(s, c))
}

/// The first position of character `c` in `s` (its length when absent).
pub fn find_char(s: &str, c: char) -> (res: usize)
    ensures
        res as int == first_char_pos(s@, c),
        res <= s@.len(),
        res < s@.len() ==> s@[res as int] == c,
{
    let n = s.unicode_len();
    let mut i: usize = 0;
    while i < n && s.get_char(i) != c
        invariant
            n == s@.len(),
            0 <= i <= n,
            forall|j: int| 0 <= j < i ==> s@[j] != c,
        decreases n - i,
    {
        i = i + 1;
    }
    proof {
        let p = char_is(s@, c);
        assert(is_first_pos(s@.len() as int, p, i as int));
        lemma_first_pos(s@.len() as int, p, i as int);
    }
    i
}

/// The last position of character `c` in `s`, if any.
pub fn rfind_char(s: &str, c: char) -> (res: Option<usize>)
    ensures
        res matches Some(i) ==> i as int == last_char_pos(s@, c) && i < s@.len() && s@[i as int] == c,
        res is None ==> last_char_pos(s@, c) == -1,
{
    let n = s.unicode_len();
    let mut k: usize = n;
    while k > 0 && s.get_char(k - 1) != c
        invariant
            n == s@.len(),
            0 <= k <= n,
            forall|j: int| k <= j < n ==> s@[j] != c,
        decreases k,
    {
        k = k - 1;
    }
    proof {
        let p = char_is(s@, c);
        assert(is_last_pos(s@.len() as int, p, k - 1));
        lemma_last_pos(s@.len() as int, p, k - 1);
    }
    if k == 0 {
        None
    } else {
        Some(k - 1)
    }
}

/// The characters of `s` from position `from` to `to`.
pub fn substring(s: &str, from: usize, to: usize) -> (res: String)
    requires
        from <= to <= s@.len(),
    ensures
        res@ == s@.subrange(from as int, to as int),
{
    String::from_str(s.substring_char(from, to))
}

} // verus!

verus! {

/// Whether two strings hold the same characters.
pub fn str_equals(a: &str, b: &str) -> (res: bool)
    ensures
        res == (a@ == b@),
{
    if a.unicode_len() != b.unicode_len() {
        return false;
    }
    let r = str_starts_with(a, b);
    proof {
        if r {
            assert(a@ =~= a@.subrange(0, b@.len() as int));
        }
        if a@ == b@ {
            assert(a@.subrange(0, b@.len() as int) =~= b@);
        }
    }
    r
}

/// `s` with `prefix` removed when it starts with it, else `s` itself.
pub open spec fn strip_prefix_or_self(s: Seq<char>, prefix: Seq<char>) -> Seq<char> {
    if seq_starts_with(s, prefix) {
        s.subrange(prefix.len() as int, s.len() as int)
    } else {
        s
    }
}

/// `s` with `prefix` removed when it starts with it, else `s` itself.
pub fn strip_prefix_or_self_exec(s: &str, prefix: &str) -> (res: String)
    ensures
        res@ == strip_prefix_or_self(s@, prefix@),
{
    if str_starts_with(s, prefix) {
        let n = s.unicode_len();
        let m = prefix.unicode_len();
        substring(s, m, n)
    } else {
        String::from_str(s)
    }
}

} // verus!
