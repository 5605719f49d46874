//! Character-level helpers shared by the parsers and formatters of the library.

use vstd::prelude::*;

verus! {

/// Collects the characters of a string slice into a vector.
pub fn chars_of(s: &str) -> (r: Vec<char>)
    ensures
        r@ == s@,
{
    let mut out: Vec<char> = Vec::new();
    for c in it: s.chars()
        invariant
            out@ == it.seq().take(it.index() as int),
    {
        out.push(c);
    }
    out
}

/// Appends one character to a string.
#[verifier::external_body]
pub fn push_char(s: &mut String, c: char)
    ensures
        final(s)@ == old(s)@.push(c),
{
    s.push(c)
}

/// Builds a string from characters.
pub fn string_from_chars(v: &[char]) -> (r: String)
    ensures
        r@ == v@,
{
    let mut s = String::new();
    let mut i: usize = 0;
    while i < v.len()
        invariant
            i <= v@.len(),
            s@ == v@.take(i as int),
        decreases v@.len() - i,
    {
        push_char(&mut s, v[i]);
        assert(v@.take(i + 1) == v@.take(i as int).push(v@[i as int]));
        i = i + 1;
    }
    assert(v@.take(i as int) == v@);
    s
}

/// Whether two character sequences are equal.
pub fn chars_eq(a: &[char], b: &[char]) -> (r: bool)
    ensures
        r == (a@ == b@),
{
    if a.len() != b.len() {
        return false;
    }
    let mut i: usize = 0;
    while i < a.len()
        invariant
            i <= a@.len(),
            a@.len() == b@.len(),
            forall|k: int| 0 <= k < i ==> a@[k] == b@[k],
        decreases a@.len() - i,
    {
        if a[i] != b[i] {
            return false;
        }
        i = i + 1;
    }
    assert(a@ =~= b@);
    true
}

/// Whether a character sequence spells the string `lit`.
pub fn chars_eq_str(a: &[char], lit: &str) -> (r: bool)
    ensures
        r == (a@ == lit@),
{
    let b = chars_of(lit);
    chars_eq(a, b.as_slice())
}

/// Whether `prefix` starts the sequence `s`.
pub open spec fn is_prefix(prefix: Seq<char>, s: Seq<char>) -> bool {
    prefix.len() <= s.len() && s.take(prefix.len() as int) == prefix
}

/// Whether `s` starts with `prefix`.
pub fn starts_with(s: &[char], prefix: &[char]) -> (r: bool)
    ensures
        r == is_prefix(prefix@, s@),
{
    if prefix.len() > s.len() {
        return false;
    }
    let mut i: usize = 0;
    while i < prefix.len()
        invariant
            i <= prefix@.len() <= s@.len(),
            forall|k: int| 0 <= k < i ==> s@[k] == prefix@[k],
        decreases prefix@.len() - i,
    {
        if s[i] != prefix[i] {
            assert(s@.take(prefix@.len() as int)[i as int] != prefix@[i as int]);
            return false;
        }
        i = i + 1;
    }
    assert(s@.take(prefix@.len() as int) =~= prefix@);
    true
}

/// The character of a digit value below 16, upper case for the letters.
pub open spec fn spec_hex_digit(d: nat) -> char {
    if d < 10 {
        ((48 + d) as u8) as char
    } else {
        ((55 + d) as u8) as char
    }
}

/// Decimal digits of a number, most significant first, without leading zeros.
pub open spec fn spec_decimal(n: nat) -> Seq<char>
    decreases n,
{
    if n < 10 {
        seq![spec_hex_digit(n)]
    } else {
        spec_decimal(n / 10).push(spec_hex_digit(n % 10))
    }
}

/// Upper-case hexadecimal digits of a number, most significant first, without
/// leading zeros.
pub open spec fn spec_hex_upper(n: nat) -> Seq<char>
    decreases n,
{
    if n < 16 {
        seq![spec_hex_digit(n)]
    } else {
        spec_hex_upper(n / 16).push(spec_hex_digit(n % 16))
    }
}

/// Hexadecimal digits padded with zeros to at least `width` characters.
pub open spec fn spec_hex_padded(n: nat, width: nat) -> Seq<char> {
    let digits = spec_hex_upper(n);
    if digits.len() >= width {
        digits
    } else {
        Seq::new((width - digits.len()) as nat, |i: int| '0') + digits
    }
}

fn hex_digit(d: u8) -> (c: char)
    requires
        d < 16,
    ensures
        c == spec_hex_digit(d as nat),
{
    if d < 10 {
        (48 + d) as char
    } else {
        (55 + d) as char
    }
}

/// Decimal digits of `n`.
pub fn decimal(n: u64) -> (r: Vec<char>)
    ensures
        r@ == spec_decimal(n as nat),
    decreases n,
{
    if n < 10 {
        let mut v: Vec<char> = Vec::new();
        v.push(hex_digit(n as u8));
        v
    } else {
        let mut v = decimal(n / 10);
        v.push(hex_digit((n % 10) as u8));
        v
    }
}

/// Upper-case hexadecimal digits of `n`.
pub fn hex_upper(n: u64) -> (r: Vec<char>)
    ensures
        r@ == spec_hex_upper(n as nat),
    decreases n,
{
    if n < 16 {
        let mut v: Vec<char> = Vec::new();
        v.push(hex_digit(n as u8));
        v
    } else {
        let mut v = hex_upper(n / 16);
        v.push(hex_digit((n % 16) as u8));
        v
    }
}

/// Upper-case hexadecimal digits of `n`, zero-padded to `width` characters.
pub fn hex_padded(n: u64, width: usize) -> (r: Vec<char>)
    ensures
        r@ == spec_hex_padded(n as nat, width as nat),
{
    let digits = hex_upper(n);
    if digits.len() >= width {
        return digits;
    }
    let pad = width - digits.len();
    let mut v: Vec<char> = Vec::new();
    let mut i: usize = 0;
    while i < pad
        invariant
            i <= pad,
            v@ == Seq::new(i as nat, |k: int| '0'),
        decreases pad - i,
    {
        v.push('0');
        i = i + 1;
    }
    let mut j: usize = 0;
    let ghost zeros = v@;
    while j < digits.len()
        invariant
            j <= digits@.len(),
            v@ == zeros + digits@.take(j as int),
        decreases digits@.len() - j,
    {
        v.push(digits[j]);
        assert(digits@.take(j + 1) == digits@.take(j as int).push(digits@[j as int]));
        j = j + 1;
    }
    assert(digits@.take(j as int) == digits@);
    v
}

/// Appends the characters of `b` to `a`.
pub fn extend_chars(a: &mut Vec<char>, b: &[char])
    ensures
        final(a)@ == old(a)@ + b@,
{
    let mut i: usize = 0;
    while i < b.len()
        invariant
            i <= b@.len(),
            a@ == old(a)@ + b@.take(i as int),
        decreases b@.len() - i,
    {
        a.push(b[i]);
        assert(b@.take(i + 1) == b@.take(i as int).push(b@[i as int]));
        i = i + 1;
    }
    assert(b@.take(i as int) == b@);
}

/// Appends the characters of the string `s` to `a`.
pub fn extend_str(a: &mut Vec<char>, s: &str)
    ensures
        final(a)@ == old(a)@ + s@,
{
    let cs = chars_of(s);
    extend_chars(a, cs.as_slice());
}

/// UTF-16 code units of one character.
pub open spec fn spec_utf16_of(c: char) -> Seq<u16> {
    let v = c as u32;
    if v < 0x10000 {
        seq![v as u16]
    } else {
        let w = (v - 0x10000) as u32;
        seq![(0xD800 + (w >> 10)) as u16, (0xDC00 + (w & 0x3FF)) as u16]
    }
}

/// UTF-16 code units of a character sequence.
pub open spec fn spec_utf16(s: Seq<char>) -> Seq<u16>
    decreases s.len(),
{
    if s.len() == 0 {
        seq![]
    } else {
        spec_utf16(s.drop_last()) + spec_utf16_of(s.last())
    }
}

/// Encodes characters as UTF-16 code units.
pub fn encode_utf16(s: &[char]) -> (r: Vec<u16>)
    ensures
        r@ == spec_utf16(s@),
{
    let mut out: Vec<u16> = Vec::new();
    let mut i: usize = 0;
    while i < s.len()
        invariant
            i <= s@.len(),
            out@ == spec_utf16(s@.take(i as int)),
        decreases s@.len() - i,
    {
        let c = s[i];
        let v = c as u32;
        proof {
            assert(s@.take(i + 1).drop_last() == s@.take(i as int));
            vstd::utf8::char_is_scalar(c);
            assert(v <= 0x10FFFF);
        }
        if v < 0x10000 {
            out.push(v as u16);
        } else {
            let w: u32 = v - 0x10000;
            assert(w >> 10 <= 0x3FF) by (bit_vector)
                requires w <= 0xFFFFF;
            assert(w & 0x3FF <= 0x3FF) by (bit_vector);
            out.push((0xD800 + (w >> 10)) as u16);
            out.push((0xDC00 + (w & 0x3FF)) as u16);
        }
        assert(out@ =~= spec_utf16(s@.take(i + 1)));
        i = i + 1;
    }
    assert(s@.take(i as int) == s@);
    out
}

/// Whether a character has the Unicode `White_Space` property, as
/// `char::is_whitespace` documents.
pub open spec fn is_white_space(c: char) -> bool {
    let v = c as u32;
    ||| 0x09 <= v <= 0x0D
    ||| v == 0x20
    ||| v == 0x85
    ||| v == 0xA0
    ||| v == 0x1680
    ||| 0x2000 <= v <= 0x200A
    ||| v == 0x2028
    ||| v == 0x2029
    ||| v == 0x202F
    ||| v == 0x205F
    ||| v == 0x3000
}

/// Whether `c` is white space.
pub fn white_space(c: char) -> (r: bool)
    ensures
        r == is_white_space(c),
{
    let v = c as u32;
    (0x09 <= v && v <= 0x0D) || v == 0x20 || v == 0x85 || v == 0xA0 || v == 0x1680 || (0x2000 <= v
        && v <= 0x200A) || v == 0x2028 || v == 0x2029 || v == 0x202F || v == 0x205F || v == 0x3000
}

/// The sequence without its leading white space.
pub open spec fn trim_start(s: Seq<char>) -> Seq<char>
    decreases s.len(),
{
    if s.len() > 0 && is_white_space(s[0]) {
        trim_start(s.drop_first())
    } else {
        s
    }
}

/// The sequence without its trailing white space.
pub open spec fn trim_end(s: Seq<char>) -> Seq<char>
    decreases s.len(),
{
    if s.len() > 0 && is_white_space(s.last()) {
        trim_end(s.drop_last())
    } else {
        s
    }
}

/// The sequence without leading and trailing white space (as `str::trim`).
pub open spec fn trim(s: Seq<char>) -> Seq<char> {
    trim_end(trim_start(s))
}

/// Removes leading and trailing white space.
pub fn trim_chars(s: &[char]) -> (r: Vec<char>)
    ensures
        r@ == trim(s@),
{
    let n = s.len();
    let mut a: usize = 0;
    assert(s@.skip(0) =~= s@);
    while a < n && white_space(s[a])
        invariant
            a <= n == s@.len(),
            trim_start(s@) == trim_start(s@.skip(a as int)),
        decreases n - a,
    {
        assert(s@.skip(a as int).drop_first() =~= s@.skip(a + 1));
        a = a + 1;
    }
    if a == n {
        assert(s@.skip(a as int) =~= Seq::<char>::empty());
    }
    let mut b: usize = n;
    let ghost q = s@.skip(a as int);
    assert(trim_start(s@) == q);
    while b > a && white_space(s[b - 1])
        invariant
            a <= b <= n == s@.len(),
            q == s@.skip(a as int),
            trim_end(q) == trim_end(s@.subrange(a as int, b as int)),
        decreases b,
    {
        assert(s@.subrange(a as int, b as int).drop_last() =~= s@.subrange(a as int, b - 1));
        b = b - 1;
    }
    proof {
        if b == n {
            assert(s@.subrange(a as int, b as int) =~= q);
        }
    }
    slice_chars(s, a, b)
}

/// The index of the first `c` in `s` at or after `i`, or the length of `s`.
pub open spec fn find_char_from(s: Seq<char>, c: char, i: int) -> int
    decreases s.len() - i,
{
    if i >= s.len() {
        s.len() as int
    } else if s[i] == c {
        i
    } else {
        find_char_from(s, c, i + 1)
    }
}

pub proof fn lemma_find_char_bounds(s: Seq<char>, c: char, i: int)
    requires
        0 <= i <= s.len(),
    ensures
        i <= find_char_from(s, c, i) <= s.len(),
        find_char_from(s, c, i) < s.len() ==> s[find_char_from(s, c, i)] == c,
        forall|k: int| i <= k < find_char_from(s, c, i) ==> s[k] != c,
    decreases s.len() - i,
{
    if i < s.len() && s[i] != c {
        lemma_find_char_bounds(s, c, i + 1);
    }
}

/// The index of the first `c` in `s` at or after `from`, or the length of `s`.
pub fn find_char(s: &[char], c: char, from: usize) -> (r: usize)
    requires
        from <= s@.len(),
    ensures
        r == find_char_from(s@, c, from as int),
{
    let mut j = from;
    while j < s.len() && s[j] != c
        invariant
            from <= j <= s@.len(),
            find_char_from(s@, c, from as int) == find_char_from(s@, c, j as int),
        decreases s@.len() - j,
    {
        j = j + 1;
    }
    j
}

/// The characters `s[a..b]`.
pub fn slice_chars(s: &[char], a: usize, b: usize) -> (r: Vec<char>)
    requires
        a <= b <= s@.len(),
    ensures
        r@ == s@.subrange(a as int, b as int),
{
    let mut out: Vec<char> = Vec::new();
    let mut k: usize = a;
    while k < b
        invariant
            a <= k <= b <= s@.len(),
            out@ == s@.subrange(a as int, k as int),
        decreases b - k,
    {
        out.push(s[k]);
        assert(s@.subrange(a as int, k + 1) =~= s@.subrange(a as int, k as int).push(s@[k as int]));
        k = k + 1;
    }
    out
}

/// The character of a digit value below 16, lower case for the letters.
pub open spec fn spec_hex_digit_lower(d: nat) -> char {
    if d < 10 {
        ((48 + d) as u8) as char
    } else {
        ((87 + d) as u8) as char
    }
}

/// Lower-case hexadecimal digits of a number, most significant first, without
/// leading zeros.
pub open spec fn spec_hex_lower(n: nat) -> Seq<char>
    decreases n,
{
    if n < 16 {
        seq![spec_hex_digit_lower(n)]
    } else {
        spec_hex_lower(n / 16).push(spec_hex_digit_lower(n % 16))
    }
}

/// Lower-case hexadecimal digits of `n`.
pub fn hex_lower(n: u64) -> (r: Vec<char>)
    ensures
        r@ == spec_hex_lower(n as nat),
    decreases n,
{
    let d = (n % 16) as u8;
    let c: char = if d < 10 { (48 + d) as char } else { (87 + d) as char };
    if n < 16 {
        let mut v: Vec<char> = Vec::new();
        v.push(c);
        v
    } else {
        let mut v = hex_lower(n / 16);
        v.push(c);
        v
    }
}

} // verus!
