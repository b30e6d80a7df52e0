//! Extraction of fixed-width integers, byte blobs and padded strings from a
//! [`ByteBuffer`].
//!
//! Integers are read in little-endian byte order, the order in which the
//! kernel of a little-endian host lays its records out.

use crate::buffer::{ByteBuffer, ParseError};
use vstd::prelude::*;
use vstd::slice::slice_subrange;

verus! {

/// The 16-bit integer whose little-endian bytes start at index `i` of `s`.
pub open spec fn u16_at(s: Seq<u8>, i: int) -> u16 {
    (s[i] as u16) | (s[i + 1] as u16) << 8
}

/// The 32-bit integer whose little-endian bytes start at index `i` of `s`.
pub open spec fn u32_at(s: Seq<u8>, i: int) -> u32 {
    (s[i] as u32) | (s[i + 1] as u32) << 8 | (s[i + 2] as u32) << 16 | (s[i + 3] as u32) << 24
}

/// The 64-bit integer whose little-endian bytes start at index `i` of `s`.
pub open spec fn u64_at(s: Seq<u8>, i: int) -> u64 {
    (s[i] as u64) | (s[i + 1] as u64) << 8 | (s[i + 2] as u64) << 16 | (s[i + 3] as u64) << 24 | (s[i
        + 4] as u64) << 32 | (s[i + 5] as u64) << 40 | (s[i + 6] as u64) << 48 | (s[i + 7] as u64)
        << 56
}

/// `n` consecutive 64-bit integers starting at index `i` of `s`.
pub open spec fn u64s_at(s: Seq<u8>, i: int, n: nat) -> Seq<u64> {
    Seq::new(n, |k: int| u64_at(s, i + 8 * k))
}

/// Reading a 32-bit integer off the front of `s`: the integer and the bytes
/// after it, or `None` when `s` is too short.
pub open spec fn take_u32(s: Seq<u8>) -> Option<(u32, Seq<u8>)> {
    if s.len() >= 4 {
        Some((u32_at(s, 0), s.skip(4)))
    } else {
        None
    }
}

/// Reading a 64-bit integer off the front of `s`.
pub open spec fn take_u64(s: Seq<u8>) -> Option<(u64, Seq<u8>)> {
    if s.len() >= 8 {
        Some((u64_at(s, 0), s.skip(8)))
    } else {
        None
    }
}

/// Reading `n` 64-bit integers off the front of `s`.
pub open spec fn take_u64s(s: Seq<u8>, n: nat) -> Option<(Seq<u64>, Seq<u8>)> {
    if s.len() >= 8 * n {
        Some((u64s_at(s, 0, n), s.skip(8 * n as int)))
    } else {
        None
    }
}

/// Reading a 64-bit length and then that many bytes off the front of `s`.
pub open spec fn take_blob(s: Seq<u8>) -> Option<(Seq<u8>, Seq<u8>)> {
    if s.len() >= 8 && s.len() >= 8 + u64_at(s, 0) {
        Some((s.subrange(8, 8 + u64_at(s, 0)), s.skip(8 + u64_at(s, 0))))
    } else {
        None
    }
}

/// How far a decode that reads its fields one after the other has come:
/// the bytes not yet read, and whether every field so far had its bytes.
pub struct Cursor {
    pub ok: bool,
    pub rest: Seq<u8>,
}

impl Cursor {
    /// The cursor before the first field of `s`.
    pub open spec fn start(s: Seq<u8>) -> Cursor {
        Cursor { ok: true, rest: s }
    }

    /// One optional field. `parsed` is what reading the field off
    /// `self.rest` gives. A field that is not `present` reads nothing; a
    /// present field that lacks bytes fails the decode for good.
    pub open spec fn field<T>(self, present: bool, parsed: Option<(T, Seq<u8>)>) -> (
        Option<T>,
        Cursor,
    ) {
        if !self.ok || !present {
            (None, self)
        } else {
            match parsed {
                Some((v, rest)) => (Some(v), Cursor { ok: true, rest }),
                None => (None, Cursor { ok: false, rest: self.rest }),
            }
        }
    }
}

/// One step of a decode whose field, where present, takes exactly `w`
/// bytes: a cursor that stood `n` bytes into `s` then stands `n + w` bytes
/// into it, and the step fails only for want of those `w` bytes.
pub proof fn lemma_field_fixed<T>(
    c: Cursor,
    present: bool,
    parsed: Option<(T, Seq<u8>)>,
    s: Seq<u8>,
    n: int,
    w: int,
)
    requires
        0 <= n,
        0 <= w,
        c.ok ==> n <= s.len() && c.rest == s.skip(n),
        parsed is Some <==> c.rest.len() >= w,
        parsed matches Some((_, rest)) ==> rest == c.rest.skip(w),
    ensures
        ({
            let (v, d) = c.field(present, parsed);
            let m = if present {
                n + w
            } else {
                n
            };
            &&& d.ok <==> c.ok && (present ==> s.len() >= n + w)
            &&& d.ok ==> m <= s.len() && d.rest == s.skip(m)
            &&& d.ok ==> (v is Some <==> present)
        }),
{
    if c.ok && present && parsed is Some {
        assert(s.skip(n).skip(w) =~= s.skip(n + w));
    }
}

/// The length of `s` without its trailing zero bytes.
pub open spec fn trimmed_len(s: Seq<u8>) -> nat
    decreases s.len(),
{
    if s.len() > 0 && s.last() == 0 {
        trimmed_len(s.drop_last())
    } else {
        s.len()
    }
}

/// `s` without its trailing zero bytes.
pub open spec fn trim_nuls(s: Seq<u8>) -> Seq<u8> {
    s.take(trimmed_len(s) as int)
}

/// `trim_nuls(s)` is the one prefix of `s` that does not end in a zero byte
/// and is followed by zero bytes only.
pub proof fn lemma_trim_nuls(s: Seq<u8>)
    ensures
        trimmed_len(s) <= s.len(),
        trim_nuls(s).len() == trimmed_len(s),
        forall|i: int| 0 <= i < trimmed_len(s) ==> trim_nuls(s)[i] == s[i],
        forall|i: int| trimmed_len(s) <= i < s.len() ==> s[i] == 0,
        trimmed_len(s) > 0 ==> s[trimmed_len(s) - 1] != 0,
    decreases s.len(),
{
    if s.len() > 0 && s.last() == 0 {
        let t = s.drop_last();
        lemma_trim_nuls(t);
        assert forall|i: int| trimmed_len(s) <= i < s.len() implies s[i] == 0 by {
            if i < t.len() {
                assert(t[i] == s[i]);
            }
        }
    }
}

/// `bytes::Buf::get_u16_le` on a byte slice: the little-endian integer made
/// of its first two bytes. The outside function panics on a shorter slice.
#[verifier::external_body]
fn get_u16_le(bytes: &[u8]) -> (r: u16)
    requires
        bytes@.len() >= 2,
    ensures
        r == u16_at(bytes@, 0),
{
    let mut b = bytes;
    bytes::Buf::get_u16_le(&mut b)
}

/// `bytes::Buf::get_u32_le` on a byte slice: the little-endian integer made
/// of its first four bytes. The outside function panics on a shorter slice.
#[verifier::external_body]
fn get_u32_le(bytes: &[u8]) -> (r: u32)
    requires
        bytes@.len() >= 4,
    ensures
        r == u32_at(bytes@, 0),
{
    let mut b = bytes;
    bytes::Buf::get_u32_le(&mut b)
}

/// `bytes::Buf::get_u64_le` on a byte slice: the little-endian integer made
/// of its first eight bytes. The outside function panics on a shorter slice.
#[verifier::external_body]
fn get_u64_le(bytes: &[u8]) -> (r: u64)
    requires
        bytes@.len() >= 8,
    ensures
        r == u64_at(bytes@, 0),
{
    let mut b = bytes;
    bytes::Buf::get_u64_le(&mut b)
}

impl<'a> ByteBuffer<'a> {
    /// Reads a 16-bit integer and advances past it.
    pub fn parse_u16(&mut self) -> (r: Result<u16, ParseError>)
        ensures
            match r {
                Ok(v) => {
                    &&& old(self)@.len() >= 2
                    &&& v == u16_at(old(self)@, 0)
                    &&& final(self)@ == old(self)@.skip(2)
                },
                Err(e) => e == ParseError::Eof && old(self)@.len() < 2 && *final(self) == *old(
                    self,
                ),
            },
    {
        let mut bytes = [0u8;2];
        match self.copy_to_slice(&mut bytes) {
            Ok(_) => Ok(get_u16_le(&bytes)),
            Err(e) => Err(e),
        }
    }

    /// Reads a 32-bit integer and advances past it.
    pub fn parse_u32(&mut self) -> (r: Result<u32, ParseError>)
        ensures
            match r {
                Ok(v) => {
                    &&& old(self)@.len() >= 4
                    &&& v == u32_at(old(self)@, 0)
                    &&& final(self)@ == old(self)@.skip(4)
                },
                Err(e) => e == ParseError::Eof && old(self)@.len() < 4 && *final(self) == *old(
                    self,
                ),
            },
    {
        let mut bytes = [0u8;4];
        match self.copy_to_slice(&mut bytes) {
            Ok(_) => Ok(get_u32_le(&bytes)),
            Err(e) => Err(e),
        }
    }

    /// Reads a 64-bit integer and advances past it.
    pub fn parse_u64(&mut self) -> (r: Result<u64, ParseError>)
        ensures
            match r {
                Ok(v) => {
                    &&& old(self)@.len() >= 8
                    &&& v == u64_at(old(self)@, 0)
                    &&& final(self)@ == old(self)@.skip(8)
                },
                Err(e) => e == ParseError::Eof && old(self)@.len() < 8 && *final(self) == *old(
                    self,
                ),
            },
    {
        let mut bytes = [0u8;8];
        match self.copy_to_slice(&mut bytes) {
            Ok(_) => Ok(get_u64_le(&bytes)),
            Err(e) => Err(e),
        }
    }

    /// Reads a 32-bit integer where `present` holds, and nothing otherwise:
    /// one optional field of a record.
    pub fn parse_opt_u32(&mut self, present: bool) -> (r: Result<Option<u32>, ParseError>)
        ensures
            ({
                let (v, c) = Cursor::start(old(self)@).field(present, take_u32(old(self)@));
                match r {
                    Ok(x) => c.ok && x == v && final(self)@ == c.rest,
                    Err(e) => e == ParseError::Eof && !c.ok,
                }
            }),
    {
        if present {
            Ok(Some(self.parse_u32()?))
        } else {
            Ok(None)
        }
    }

    /// Reads a 64-bit integer where `present` holds, and nothing otherwise:
    /// one optional field of a record.
    pub fn parse_opt_u64(&mut self, present: bool) -> (r: Result<Option<u64>, ParseError>)
        ensures
            ({
                let (v, c) = Cursor::start(old(self)@).field(present, take_u64(old(self)@));
                match r {
                    Ok(x) => c.ok && x == v && final(self)@ == c.rest,
                    Err(e) => e == ParseError::Eof && !c.ok,
                }
            }),
    {
        if present {
            Ok(Some(self.parse_u64()?))
        } else {
            Ok(None)
        }
    }

    /// Reads the next `N` bytes into an array and advances past them.
    pub fn parse_bytes<const N: usize>(&mut self) -> (r: Result<[u8; N], ParseError>)
        ensures
            match r {
                Ok(v) => {
                    &&& old(self)@.len() >= N
                    &&& v@ == old(self)@.take(N as int)
                    &&& final(self)@ == old(self)@.skip(N as int)
                },
                Err(e) => e == ParseError::Eof && old(self)@.len() < N && *final(self) == *old(
                    self,
                ),
            },
    {
        let mut bytes = [0u8;N];
        match self.copy_to_slice(&mut bytes) {
            Ok(_) => Ok(bytes),
            Err(e) => Err(e),
        }
    }

    /// Takes the next `len` bytes, which the buffer has, into a vector.
    fn take_vec(&mut self, len: u64) -> (v: Vec<u8>)
        requires
            len <= old(self)@.len(),
        ensures
            v@ == old(self)@.take(len as int),
            final(self)@ == old(self)@.skip(len as int),
    {
        let mut v: Vec<u8> = Vec::new();
        match *self {
            ByteBuffer::Single(buf) => {
                let n = len as usize;
                v.extend_from_slice(slice_subrange(buf, 0, n));
                *self = ByteBuffer::Single(slice_subrange(buf, n, buf.len()));
            },
            ByteBuffer::Split(bufs) => {
                let a = bufs[0];
                let b = bufs[1];
                if len <= a.len() as u64 {
                    let n = len as usize;
                    v.extend_from_slice(slice_subrange(a, 0, n));
                    *self = ByteBuffer::Split([slice_subrange(a, n, a.len()), b]);
                } else {
                    let m = (len - a.len() as u64) as usize;
                    v.extend_from_slice(a);
                    v.extend_from_slice(slice_subrange(b, 0, m));
                    *self = ByteBuffer::Single(slice_subrange(b, m, b.len()));
                }
            },
        }
        assert(v@ =~= old(self)@.take(len as int));
        assert(self@ =~= old(self)@.skip(len as int));
        v
    }

    /// Reads the next `len` bytes into a vector and advances past them.
    pub fn parse_vec(&mut self, len: usize) -> (r: Result<Vec<u8>, ParseError>)
        ensures
            match r {
                Ok(v) => {
                    &&& old(self)@.len() >= len
                    &&& v@ == old(self)@.take(len as int)
                    &&& final(self)@ == old(self)@.skip(len as int)
                },
                Err(e) => e == ParseError::Eof && old(self)@.len() < len && *final(self) == *old(
                    self,
                ),
            },
    {
        if !self.has(len) {
            return Err(ParseError::Eof);
        }
        Ok(self.take_vec(len as u64))
    }

    /// Reads everything that is left.
    pub fn parse_remainder(&mut self) -> (v: Vec<u8>)
        ensures
            v@ == old(self)@,
            final(self)@.len() == 0,
            *final(self) is Single,
    {
        let v = self.to_vec();
        match *self {
            ByteBuffer::Single(buf) => {
                *self = ByteBuffer::Single(slice_subrange(buf, buf.len(), buf.len()));
            },
            ByteBuffer::Split(bufs) => {
                let b = bufs[1];
                *self = ByteBuffer::Single(slice_subrange(b, b.len(), b.len()));
            },
        }
        v
    }

    /// Reads everything that is left as a zero-padded string: the bytes
    /// without the trailing zero bytes.
    pub fn parse_string(&mut self) -> (v: Vec<u8>)
        ensures
            v@ == trim_nuls(old(self)@),
            final(self)@.len() == 0,
            *final(self) is Single,
    {
        let mut v = self.parse_remainder();
        let ghost all = v@;
        while v.len() > 0 && v[v.len() - 1] == 0
            invariant
                v@.len() <= all.len(),
                v@ == all.take(v@.len() as int),
                trimmed_len(v@) == trimmed_len(all),
            decreases v@.len(),
        {
            v.pop();
            assert(v@ =~= all.take(v@.len() as int));
        }
        v
    }

    /// Reads a 64-bit length and then that many bytes.
    ///
    /// A length that exceeds what the buffer still holds is an end-of-data
    /// error, so a corrupt length never causes an allocation.
    pub fn parse_blob(&mut self) -> (r: Result<Vec<u8>, ParseError>)
        ensures
            match r {
                Ok(v) => take_blob(old(self)@) == Some((v@, final(self)@)),
                Err(e) => e == ParseError::Eof && take_blob(old(self)@) is None,
            },
    {
        let len = self.parse_u64()?;
        if !self.has_u64(len) {
            return Err(ParseError::Eof);
        }
        let v = self.take_vec(len);
        proof {
            let s = old(self)@;
            assert(v@ =~= s.subrange(8, 8 + len));
            assert(self@ =~= s.skip(8 + len));
        }
        Ok(v)
    }

    /// Reads `count` consecutive 64-bit integers.
    pub fn parse_u64s(&mut self, count: u64) -> (r: Result<Vec<u64>, ParseError>)
        ensures
            match r {
                Ok(v) => take_u64s(old(self)@, count as nat) == Some((v@, final(self)@)),
                Err(e) => e == ParseError::Eof && take_u64s(old(self)@, count as nat) is None,
            },
    {
        let mut out: Vec<u64> = Vec::new();
        let mut i: u64 = 0;
        while i < count
            invariant
                i <= count,
                old(self)@.len() >= 8 * i,
                out@ == u64s_at(old(self)@, 0, i as nat),
                self@ == old(self)@.skip(8 * i),
            decreases count - i,
        {
            let v = self.parse_u64()?;
            out.push(v);
            i += 1;
            proof {
                assert(self@ =~= old(self)@.skip(8 * i));
                assert(out@ =~= u64s_at(old(self)@, 0, i as nat));
            }
        }
        Ok(out)
    }
}

} // verus!
