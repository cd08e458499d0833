//! Text building blocks: hexadecimal digits and escaped byte literals.

use vstd::prelude::*;

verus! {

/// `String::push` appends one character to the end of the string.
pub assume_specification[ String::push ](s: &mut String, c: char)
    ensures
        final(s)@ == old(s)@.push(c),
;

/// The text of `s` in its debugging form: quoted, with escapes.
pub uninterp spec fn debug_text(s: Seq<char>) -> Seq<char>;

/// The `Debug` formatting of a string slice by `format!` with `{:?}`, which
/// depends on the characters of the slice alone.
#[verifier::external_body]
pub(crate) fn debug_format(s: &str) -> (quoted: String)
    ensures
        quoted@ == debug_text(s@),
{
    format!("{:?}", s)
}

/// The text of a byte sequence, with every part of it that is not UTF-8
/// replaced by the replacement character.
pub uninterp spec fn lossy_text(bytes: Seq<u8>) -> Seq<char>;

/// `String::from_utf8_lossy`: the bytes as text, which depends on the bytes
/// alone.
#[verifier::external_body]
pub(crate) fn from_utf8_lossy(bytes: &[u8]) -> (text: String)
    ensures
        text@ == lossy_text(bytes@),
{
    String::from_utf8_lossy(bytes).into_owned()
}

/// `==` on string slices: whether the two hold the same characters.
#[verifier::external_body]
pub(crate) fn same_text(a: &str, b: &str) -> (same: bool)
    ensures
        same == (a@ == b@),
{
    a == b
}

/// The lowercase hexadecimal digit for a value below sixteen.
pub open spec fn hex_digit(n: int) -> char {
    if n < 10 {
        (('0' as u8 + n) as u8) as char
    } else {
        (('a' as u8 + n - 10) as u8) as char
    }
}

/// Different values below sixteen have different digits.
pub proof fn lemma_hex_digit_injective(m: int, n: int)
    requires
        0 <= m < 16,
        0 <= n < 16,
        hex_digit(m) == hex_digit(n),
    ensures
        m == n,
{
    assert(hex_digit(m) as u8 == if m < 10 {
        '0' as u8 + m
    } else {
        'a' as u8 + m - 10
    });
    assert(hex_digit(n) as u8 == if n < 10 {
        '0' as u8 + n
    } else {
        'a' as u8 + n - 10
    });
}

/// Two lowercase hexadecimal digits per byte, high nibble first.
pub open spec fn hex_of(bytes: Seq<u8>) -> Seq<char> {
    Seq::new(
        2 * bytes.len(),
        |i: int|
            if i % 2 == 0 {
                hex_digit(bytes[i / 2] as int / 16)
            } else {
                hex_digit(bytes[i / 2] as int % 16)
            },
    )
}

/// Every byte written as a backslash, an `x` and its two hexadecimal digits.
pub open spec fn escaped_bytes(bytes: Seq<u8>) -> Seq<char> {
    Seq::new(
        4 * bytes.len(),
        |i: int|
            if i % 4 == 0 {
                '\\'
            } else if i % 4 == 1 {
                'x'
            } else if i % 4 == 2 {
                hex_digit(bytes[i / 4] as int / 16)
            } else {
                hex_digit(bytes[i / 4] as int % 16)
            },
    )
}

/// The digit character of a nibble.
pub fn hex_digit_char(n: u8) -> (c: char)
    requires
        n < 16,
    ensures
        c == hex_digit(n as int),
{
    if n < 10 {
        ('0' as u8 + n) as char
    } else {
        ('a' as u8 + (n - 10)) as char
    }
}

/// Appends the hexadecimal encoding of `bytes` to `out`.
pub fn push_hex(out: &mut String, bytes: &[u8])
    ensures
        final(out)@ == old(out)@ + hex_of(bytes@),
{
    let n: usize = bytes.len();
    let mut i: usize = 0;
    while i < n
        invariant
            n == bytes@.len(),
            i <= n,
            out@ == old(out)@ + hex_of(bytes@.take(i as int)),
        decreases n - i,
    {
        let b: u8 = bytes[i];
        out.push(hex_digit_char(b / 16));
        out.push(hex_digit_char(b % 16));
        assert(hex_of(bytes@.take(i as int + 1)) =~= hex_of(bytes@.take(i as int)).push(
            hex_digit(b as int / 16),
        ).push(hex_digit(b as int % 16)));
        i += 1;
    }
    assert(bytes@.take(n as int) =~= bytes@);
}

/// Appends every byte of `bytes` to `out` in the `\xNN` form.
pub fn push_escaped_bytes(out: &mut String, bytes: &[u8])
    ensures
        final(out)@ == old(out)@ + escaped_bytes(bytes@),
{
    let n: usize = bytes.len();
    let mut i: usize = 0;
    while i < n
        invariant
            n == bytes@.len(),
            i <= n,
            out@ == old(out)@ + escaped_bytes(bytes@.take(i as int)),
        decreases n - i,
    {
        let b: u8 = bytes[i];
        out.push('\\');
        out.push('x');
        out.push(hex_digit_char(b / 16));
        out.push(hex_digit_char(b % 16));
        assert(escaped_bytes(bytes@.take(i as int + 1)) =~= escaped_bytes(
            bytes@.take(i as int),
        ).push('\\').push('x').push(hex_digit(b as int / 16)).push(hex_digit(b as int % 16)));
        i += 1;
    }
    assert(bytes@.take(n as int) =~= bytes@);
}

/// The characters of a string slice, in order.
pub fn chars_of(s: &str) -> (v: Vec<char>)
    ensures
        v@ == s@,
{
    let mut v: Vec<char> = Vec::new();
    for c in it: s.chars()
        invariant
            it.seq() == s@,
            v@ == it.seq().take(it.index() as int),
    {
        v.push(c);
        assert(it.seq().take(it.index() + 1) =~= it.seq().take(it.index() as int).push(c));
    }
    assert(s@.take(s@.len() as int) =~= s@);
    v
}

} // verus!
