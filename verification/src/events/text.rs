//! Reading the small text files in which the kernel describes a PMU.
//!
//! Everything here works on the bytes of the text, which is UTF-8. White
//! space is what Unicode calls white space, in its UTF-8 encoding: one to
//! three bytes for each character.

use vstd::prelude::*;
use vstd::slice::slice_subrange;
use vstd::string::StringSliceAdditionalSpecFns;

verus! {

/// Why a number could not be read.
#[derive(Clone, Copy, Debug, PartialEq, Eq, Structural)]
pub enum IntError {
    /// The text was empty.
    Empty,
    /// A character was not a digit.
    InvalidDigit,
    /// The number does not fit.
    Overflow,
}

/// Whether `b` is a white-space character of one byte: a blank, or one of
/// the control characters from tab to carriage return.
pub open spec fn is_space(b: u8) -> bool {
    b == 0x20 || (0x09 <= b && b <= 0x0d)
}

/// Whether `a b` is a white-space character of two bytes: U+0085 or U+00A0.
pub open spec fn is_space2(a: u8, b: u8) -> bool {
    a == 0xc2 && (b == 0x85 || b == 0xa0)
}

/// Whether `a b c` is a white-space character of three bytes: U+1680,
/// U+2000 to U+200A, U+2028, U+2029, U+202F, U+205F or U+3000.
pub open spec fn is_space3(a: u8, b: u8, c: u8) -> bool {
    ||| a == 0xe1 && b == 0x9a && c == 0x80
    ||| a == 0xe2 && b == 0x80 && ((0x80 <= c && c <= 0x8a) || c == 0xa8 || c == 0xa9 || c == 0xaf)
    ||| a == 0xe2 && b == 0x81 && c == 0x9f
    ||| a == 0xe3 && b == 0x80 && c == 0x80
}

/// How many bytes the white-space character at the end of `s` takes, or 0
/// where `s` does not end in one.
pub open spec fn space_at_end(s: Seq<u8>) -> nat {
    let n = s.len() as int;
    if n >= 1 && is_space(s[n - 1]) {
        1
    } else if n >= 2 && is_space2(s[n - 2], s[n - 1]) {
        2
    } else if n >= 3 && is_space3(s[n - 3], s[n - 2], s[n - 1]) {
        3
    } else {
        0
    }
}

/// How many bytes the white-space character at the start of `s` takes, or
/// 0 where `s` does not start with one.
pub open spec fn space_at_start(s: Seq<u8>) -> nat {
    if s.len() >= 1 && is_space(s[0]) {
        1
    } else if s.len() >= 2 && is_space2(s[0], s[1]) {
        2
    } else if s.len() >= 3 && is_space3(s[0], s[1], s[2]) {
        3
    } else {
        0
    }
}

/// The length of `s` without its trailing white space.
pub open spec fn trimmed_end_len(s: Seq<u8>) -> nat
    decreases s.len(),
{
    if space_at_end(s) > 0 {
        trimmed_end_len(s.take(s.len() - space_at_end(s)))
    } else {
        s.len()
    }
}

/// `s` without its trailing white space.
pub open spec fn spec_trim_end(s: Seq<u8>) -> Seq<u8> {
    s.take(trimmed_end_len(s) as int)
}

/// `s` without its leading white space.
pub open spec fn spec_trim_start(s: Seq<u8>) -> Seq<u8>
    decreases s.len(),
{
    if space_at_start(s) > 0 {
        spec_trim_start(s.skip(space_at_start(s) as int))
    } else {
        s
    }
}

/// The index of the first `b` in `s`, or the length of `s` where it has
/// none.
pub open spec fn index_of(s: Seq<u8>, b: u8) -> int
    decreases s.len(),
{
    if s.len() == 0 || s[0] == b {
        0
    } else {
        1 + index_of(s.skip(1), b)
    }
}

/// `index_of` is the first index at which `b` stands.
pub proof fn lemma_index_of(s: Seq<u8>, b: u8)
    ensures
        0 <= index_of(s, b) <= s.len(),
        index_of(s, b) < s.len() ==> s[index_of(s, b)] == b,
        forall|j: int| 0 <= j < index_of(s, b) ==> s[j] != b,
    decreases s.len(),
{
    if s.len() != 0 && s[0] != b {
        let t = s.skip(1);
        lemma_index_of(t, b);
        assert forall|j: int| 0 <= j < index_of(s, b) implies s[j] != b by {
            if j > 0 {
                assert(t[j - 1] == s[j]);
            }
        }
    }
}

/// An index before which no `b` stands, and at which `b` stands or `s`
/// ends, is `index_of`.
pub proof fn lemma_index_of_is(s: Seq<u8>, b: u8, i: int)
    requires
        0 <= i <= s.len(),
        forall|j: int| 0 <= j < i ==> s[j] != b,
        i < s.len() ==> s[i] == b,
    ensures
        index_of(s, b) == i,
{
    lemma_index_of(s, b);
    let k = index_of(s, b);
    if k < i {
        assert(s[k] != b);
    }
}

/// The value of the digit `b` in the given radix, if it is one: `0` to
/// `9`, then the letters in either case.
pub open spec fn digit_of(b: u8, radix: u64) -> Option<u64> {
    let d: int = if 0x30 <= b && b <= 0x39 {
        b - 0x30
    } else if 0x61 <= b && b <= 0x7a {
        b - 0x61 + 10
    } else if 0x41 <= b && b <= 0x5a {
        b - 0x41 + 10
    } else {
        36
    };
    if d < radix {
        Some(d as u64)
    } else {
        None
    }
}

/// The number that the digits `s` spell in the given radix, read from the
/// left. The first character that is no digit, and the first digit with
/// which the number exceeds `max`, end the reading with an error.
pub open spec fn digits_value(s: Seq<u8>, radix: u64, max: u64) -> Result<u64, IntError>
    decreases s.len(),
{
    if s.len() == 0 {
        Ok(0)
    } else {
        match digits_value(s.drop_last(), radix, max) {
            Err(e) => Err(e),
            Ok(v) => match digit_of(s.last(), radix) {
                None => Err(IntError::InvalidDigit),
                Some(d) => if v * radix + d > max {
                    Err(IntError::Overflow)
                } else {
                    Ok((v * radix + d) as u64)
                },
            },
        }
    }
}

/// The unsigned number that `s` spells in the given radix: digits, with at
/// most a `+` before them.
pub open spec fn spec_parse_int(s: Seq<u8>, radix: u64, max: u64) -> Result<u64, IntError> {
    if s.len() == 0 {
        Err(IntError::Empty)
    } else {
        let digits = if s[0] == 0x2b {
            s.skip(1)
        } else {
            s
        };
        if digits.len() == 0 {
            Err(IntError::InvalidDigit)
        } else {
            digits_value(digits, radix, max)
        }
    }
}

/// The number that `s` spells in hexadecimal, with or without `0x` before
/// it.
pub open spec fn spec_parse_hex(s: Seq<u8>) -> Result<u64, IntError> {
    if s.len() >= 2 && s[0] == 0x30 && s[1] == 0x78 {
        spec_parse_int(s.skip(2), 16, u64::MAX)
    } else {
        spec_parse_int(s, 16, u64::MAX)
    }
}

/// Whether `a` and `b` hold the same bytes.
pub fn bytes_eq(a: &[u8], b: &[u8]) -> (r: bool)
    ensures
        r == (a@ == b@),
{
    if a.len() != b.len() {
        return false;
    }
    let mut i: usize = 0;
    while i < a.len()
        invariant
            a@.len() == b@.len(),
            i <= a@.len(),
            forall|j: int| 0 <= j < i ==> a@[j] == b@[j],
        decreases a@.len() - i,
    {
        if a[i] != b[i] {
            return false;
        }
        i += 1;
    }
    assert(a@ =~= b@);
    true
}

/// Whether `b` is a white-space character of one byte.
fn space1(b: u8) -> (r: bool)
    ensures
        r == is_space(b),
{
    b == 0x20 || (0x09 <= b && b <= 0x0d)
}

/// Whether `a b` is a white-space character of two bytes.
fn space2(a: u8, b: u8) -> (r: bool)
    ensures
        r == is_space2(a, b),
{
    a == 0xc2 && (b == 0x85 || b == 0xa0)
}

/// Whether `a b c` is a white-space character of three bytes.
fn space3(a: u8, b: u8, c: u8) -> (r: bool)
    ensures
        r == is_space3(a, b, c),
{
    (a == 0xe1 && b == 0x9a && c == 0x80) || (a == 0xe2 && b == 0x80 && ((0x80 <= c && c <= 0x8a)
        || c == 0xa8 || c == 0xa9 || c == 0xaf)) || (a == 0xe2 && b == 0x81 && c == 0x9f) || (a
        == 0xe3 && b == 0x80 && c == 0x80)
}

/// How many bytes the white-space character at the end of the first `n`
/// bytes takes.
fn space_before(bytes: &[u8], n: usize) -> (r: usize)
    requires
        n <= bytes@.len(),
    ensures
        r == space_at_end(bytes@.take(n as int)),
        r <= n,
{
    if n >= 1 && space1(bytes[n - 1]) {
        1
    } else if n >= 2 && space2(bytes[n - 2], bytes[n - 1]) {
        2
    } else if n >= 3 && space3(bytes[n - 3], bytes[n - 2], bytes[n - 1]) {
        3
    } else {
        0
    }
}

/// How many bytes the white-space character at index `i` takes.
fn space_after(bytes: &[u8], i: usize) -> (r: usize)
    requires
        i <= bytes@.len(),
    ensures
        r == space_at_start(bytes@.skip(i as int)),
        i + r <= bytes@.len(),
{
    let n = bytes.len() - i;
    if n >= 1 && space1(bytes[i]) {
        1
    } else if n >= 2 && space2(bytes[i], bytes[i + 1]) {
        2
    } else if n >= 3 && space3(bytes[i], bytes[i + 1], bytes[i + 2]) {
        3
    } else {
        0
    }
}

/// `bytes` without its trailing white space.
pub fn trim_end(bytes: &[u8]) -> (r: &[u8])
    ensures
        r@ == spec_trim_end(bytes@),
{
    let mut n = bytes.len();
    assert(bytes@.take(n as int) =~= bytes@);
    loop
        invariant
            n <= bytes@.len(),
            trimmed_end_len(bytes@.take(n as int)) == trimmed_end_len(bytes@),
        ensures
            space_at_end(bytes@.take(n as int)) == 0,
        decreases n,
    {
        let k = space_before(bytes, n);
        if k == 0 {
            break ;
        }
        assert(bytes@.take(n as int).take(n - k) =~= bytes@.take(n - k));
        n -= k;
    }
    proof {
        assert(bytes@.take(n as int).len() == n);
    }
    slice_subrange(bytes, 0, n)
}

/// `bytes` without its leading white space.
pub fn trim_start(bytes: &[u8]) -> (r: &[u8])
    ensures
        r@ == spec_trim_start(bytes@),
{
    let len = bytes.len();
    let mut i: usize = 0;
    assert(bytes@.skip(0) =~= bytes@);
    loop
        invariant
            len == bytes@.len(),
            i <= len,
            spec_trim_start(bytes@.skip(i as int)) == spec_trim_start(bytes@),
        ensures
            space_at_start(bytes@.skip(i as int)) == 0,
        decreases len - i,
    {
        let k = space_after(bytes, i);
        if k == 0 {
            break ;
        }
        assert(bytes@.skip(i as int).skip(k as int) =~= bytes@.skip(i + k));
        i += k;
    }
    slice_subrange(bytes, i, len)
}

/// The index of the first `b` in `bytes`, or the length of `bytes` where
/// it has none.
pub fn find_byte(bytes: &[u8], b: u8) -> (r: usize)
    ensures
        r == index_of(bytes@, b),
        r <= bytes@.len(),
{
    let mut i: usize = 0;
    while i < bytes.len() && bytes[i] != b
        invariant
            i <= bytes@.len(),
            forall|j: int| 0 <= j < i ==> bytes@[j] != b,
        decreases bytes@.len() - i,
    {
        i += 1;
    }
    proof {
        lemma_index_of_is(bytes@, b, i as int);
    }
    i
}

/// The value of the digit `b` in the given radix, if it is one.
fn digit(b: u8, radix: u64) -> (r: Option<u64>)
    ensures
        r == digit_of(b, radix),
{
    let d: u64 = if 0x30 <= b && b <= 0x39 {
        (b - 0x30) as u64
    } else if 0x61 <= b && b <= 0x7a {
        (b - 0x61) as u64 + 10
    } else if 0x41 <= b && b <= 0x5a {
        (b - 0x41) as u64 + 10
    } else {
        36
    };
    if d < radix {
        Some(d)
    } else {
        None
    }
}

/// Reads the unsigned number that `bytes` spells in the given radix and
/// that is at most `max`.
pub fn parse_int(bytes: &[u8], radix: u64, max: u64) -> (r: Result<u64, IntError>)
    requires
        2 <= radix <= 36,
    ensures
        r == spec_parse_int(bytes@, radix, max),
{
    if bytes.len() == 0 {
        return Err(IntError::Empty);
    }
    let start: usize = if bytes[0] == 0x2b {
        1
    } else {
        0
    };
    if start == bytes.len() {
        return Err(IntError::InvalidDigit);
    }
    let ghost digits = bytes@.skip(start as int);
    assert(bytes@.skip(0) =~= bytes@);
    let mut acc: u64 = 0;
    let mut i: usize = start;
    assert(digits.take(0) =~= Seq::<u8>::empty());
    while i < bytes.len()
        invariant
            2 <= radix <= 36,
            start <= i <= bytes@.len(),
            start < bytes@.len(),
            start == if bytes@[0] == 0x2b {
                1int
            } else {
                0int
            },
            bytes@.skip(0) == bytes@,
            digits == bytes@.skip(start as int),
            digits_value(digits.take(i - start), radix, max) == Ok::<u64, IntError>(acc),
        decreases bytes@.len() - i,
    {
        proof {
            assert(digits.take(i - start + 1).drop_last() =~= digits.take(i - start));
            assert(digits.take(i - start + 1).last() == bytes@[i as int]);
        }
        match digit(bytes[i], radix) {
            None => {
                proof {
                    lemma_digits_error_stays(digits, radix, max, i - start + 1);
                }
                return Err(IntError::InvalidDigit);
            },
            Some(d) => {
                assert(acc * radix + d <= u64::MAX * 36 + 36) by (nonlinear_arith)
                    requires
                        acc <= u64::MAX,
                        radix <= 36,
                        d <= 36,
                ;
                let next: u128 = acc as u128 * radix as u128 + d as u128;
                if next > max as u128 {
                    proof {
                        lemma_digits_error_stays(digits, radix, max, i - start + 1);
                    }
                    return Err(IntError::Overflow);
                }
                acc = next as u64;
            },
        }
        i += 1;
    }
    assert(digits.take(i - start) =~= digits);
    Ok(acc)
}

/// Once a prefix of the digits fails to read, the whole fails in the same
/// way.
proof fn lemma_digits_error_stays(s: Seq<u8>, radix: u64, max: u64, n: int)
    requires
        0 <= n <= s.len(),
        digits_value(s.take(n), radix, max) is Err,
    ensures
        digits_value(s, radix, max) == digits_value(s.take(n), radix, max),
    decreases s.len() - n,
{
    if n < s.len() {
        assert(s.take(n + 1).drop_last() =~= s.take(n));
        lemma_digits_error_stays(s, radix, max, n + 1);
    } else {
        assert(s.take(n) =~= s);
    }
}

/// Reads the number that `text` spells in hexadecimal, with or without
/// `0x` before it.
pub fn parse_hex(text: &str) -> (r: Result<u64, IntError>)
    ensures
        r == spec_parse_hex(text.spec_bytes()),
{
    parse_hex_bytes(text.as_bytes())
}

/// Reads the number that `bytes` spells in hexadecimal, with or without
/// `0x` before it.
pub fn parse_hex_bytes(bytes: &[u8]) -> (r: Result<u64, IntError>)
    ensures
        r == spec_parse_hex(bytes@),
{
    if bytes.len() >= 2 && bytes[0] == 0x30 && bytes[1] == 0x78 {
        parse_int(slice_subrange(bytes, 2, bytes.len()), 16, u64::MAX)
    } else {
        parse_int(bytes, 16, u64::MAX)
    }
}

/// The decimal number of at most 32 bits that `s` spells.
pub open spec fn spec_parse_u32(s: Seq<u8>) -> Result<u32, IntError> {
    match spec_parse_int(s, 10, 0xffff_ffff) {
        Ok(v) => Ok(v as u32),
        Err(e) => Err(e),
    }
}

/// Reads the decimal number of at most 32 bits that `bytes` spells.
pub fn parse_u32(bytes: &[u8]) -> (r: Result<u32, IntError>)
    ensures
        r == spec_parse_u32(bytes@),
{
    proof {
        lemma_parse_int_bound(bytes@, 10, 0xffff_ffff);
    }
    match parse_int(bytes, 10, 0xffff_ffff) {
        Ok(v) => Ok(v as u32),
        Err(e) => Err(e),
    }
}

/// The kind of a PMU as its `type` file gives it: a decimal number with
/// white space around it.
pub open spec fn spec_parse_pmu_type(s: Seq<u8>) -> Result<u32, IntError> {
    spec_parse_u32(spec_trim_start(spec_trim_end(s)))
}

/// Reads the kind of a PMU from the contents of its `type` file.
pub fn parse_pmu_type(text: &str) -> (r: Result<u32, IntError>)
    ensures
        r == spec_parse_pmu_type(text.spec_bytes()),
{
    parse_u32(trim_start(trim_end(text.as_bytes())))
}

/// A number that was read is at most `max`.
pub proof fn lemma_parse_int_bound(s: Seq<u8>, radix: u64, max: u64)
    ensures
        spec_parse_int(s, radix, max) matches Ok(v) ==> v <= max,
{
    if s.len() > 0 {
        let digits = if s[0] == 0x2b {
            s.skip(1)
        } else {
            s
        };
        lemma_digits_bound(digits, radix, max);
    }
}

/// A number that the digits spell is at most `max`.
proof fn lemma_digits_bound(s: Seq<u8>, radix: u64, max: u64)
    ensures
        digits_value(s, radix, max) matches Ok(v) ==> v <= max,
    decreases s.len(),
{
    if s.len() > 0 {
        lemma_digits_bound(s.drop_last(), radix, max);
    }
}

} // verus!
