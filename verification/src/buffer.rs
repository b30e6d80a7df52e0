//! A forward-only cursor over one or two borrowed byte spans.
//!
//! The ring buffer that the kernel writes into is circular, so the bytes of a
//! record either lie in one piece or wrap around the end of the region and
//! continue at its start. [`ByteBuffer`] presents both cases as one sequence
//! of bytes: its view is the first span followed by the second.

use std::borrow::Cow;
use vstd::prelude::*;
use vstd::slice::slice_subrange;

verus! {

/// Why decoding stopped.
#[derive(Clone, Copy, Debug, PartialEq, Eq, Structural)]
pub enum ParseError {
    /// A field needed more bytes than the buffer still held.
    Eof,
    /// A record header declared a total length smaller than the header itself.
    InvalidHeader,
}

/// A readable byte sequence made of one span, or of two spans read one after
/// the other.
#[derive(Clone, Copy, Debug)]
pub enum ByteBuffer<'a> {
    Single(&'a [u8]),
    Split([&'a [u8]; 2]),
}

impl<'a> View for ByteBuffer<'a> {
    type V = Seq<u8>;

    open spec fn view(&self) -> Seq<u8> {
        match *self {
            ByteBuffer::Single(buf) => buf@,
            ByteBuffer::Split(bufs) => bufs[0]@ + bufs[1]@,
        }
    }
}

/// Copies `src` into `dst` starting at index `at`.
fn copy_into(dst: &mut [u8], at: usize, src: &[u8])
    requires
        at + src@.len() <= old(dst)@.len(),
    ensures
        final(dst)@.len() == old(dst)@.len(),
        forall|i: int|
            0 <= i < old(dst)@.len() ==> #[trigger] final(dst)@[i] == if at <= i < at + src@.len() {
                src@[i - at]
            } else {
                old(dst)@[i]
            },
{
    let n = src.len();
    let total = dst.len();
    let mut i: usize = 0;
    while i < n
        invariant
            n == src@.len(),
            i <= n,
            dst@.len() == old(dst)@.len(),
            dst@.len() == total,
            at + n <= total,
            forall|j: int|
                0 <= j < dst@.len() ==> #[trigger] dst@[j] == if at <= j < at + i {
                    src@[j - at]
                } else {
                    old(dst)@[j]
                },
        decreases n - i,
    {
        dst[at + i] = src[i];
        i += 1;
    }
}

impl<'a> ByteBuffer<'a> {
    /// The length of the first span.
    pub open spec fn first_len(&self) -> nat {
        match *self {
            ByteBuffer::Single(buf) => buf@.len(),
            ByteBuffer::Split(bufs) => bufs[0]@.len(),
        }
    }

    /// The number of bytes that remain to be read.
    pub fn len(&self) -> (n: usize)
        requires
            self@.len() <= usize::MAX,
        ensures
            n == self@.len(),
    {
        match self {
            ByteBuffer::Single(buf) => buf.len(),
            ByteBuffer::Split(bufs) => bufs[0].len() + bufs[1].len(),
        }
    }

    /// Whether at least `n` bytes remain.
    pub fn has(&self, n: usize) -> (b: bool)
        ensures
            b == (n <= self@.len()),
    {
        match self {
            ByteBuffer::Single(buf) => n <= buf.len(),
            ByteBuffer::Split(bufs) => n <= bufs[0].len() || n - bufs[0].len() <= bufs[1].len(),
        }
    }

    /// Whether at least `n` bytes remain, for a count of 64 bits.
    pub fn has_u64(&self, n: u64) -> (b: bool)
        ensures
            b == (n <= self@.len()),
    {
        match self {
            ByteBuffer::Single(buf) => n <= buf.len() as u64,
            ByteBuffer::Split(bufs) => n <= bufs[0].len() as u64 || n - bufs[0].len() as u64
                <= bufs[1].len() as u64,
        }
    }

    /// Cuts the buffer in two before its last `n` bytes.
    pub fn split_back(&self, n: usize) -> (r: (ByteBuffer<'a>, ByteBuffer<'a>))
        requires
            n <= self@.len(),
        ensures
            r.0@ == self@.take(self@.len() - n),
            r.1@ == self@.skip(self@.len() - n),
    {
        let r = match *self {
            ByteBuffer::Single(buf) => {
                let at = buf.len() - n;
                (
                    ByteBuffer::Single(slice_subrange(buf, 0, at)),
                    ByteBuffer::Single(slice_subrange(buf, at, buf.len())),
                )
            },
            ByteBuffer::Split(bufs) => {
                let a = bufs[0];
                let b = bufs[1];
                if n <= b.len() {
                    let at = b.len() - n;
                    (
                        ByteBuffer::Split([a, slice_subrange(b, 0, at)]),
                        ByteBuffer::Single(slice_subrange(b, at, b.len())),
                    )
                } else {
                    let at = a.len() - (n - b.len());
                    (
                        ByteBuffer::Single(slice_subrange(a, 0, at)),
                        ByteBuffer::Split([slice_subrange(a, at, a.len()), b]),
                    )
                }
            },
        };
        assert(r.0@ =~= self@.take(self@.len() - n));
        assert(r.1@ =~= self@.skip(self@.len() - n));
        r
    }

    /// Shortens the buffer to its first `new_len` bytes.
    ///
    /// A split buffer whose first span already holds `new_len` bytes becomes a
    /// single span.
    pub fn truncate(&mut self, new_len: usize)
        requires
            new_len <= old(self)@.len(),
        ensures
            final(self)@ == old(self)@.take(new_len as int),
            new_len <= old(self).first_len() ==> *final(self) is Single,
    {
        match *self {
            ByteBuffer::Single(buf) => {
                *self = ByteBuffer::Single(slice_subrange(buf, 0, new_len));
            },
            ByteBuffer::Split(bufs) => {
                let a = bufs[0];
                let b = bufs[1];
                if new_len <= a.len() {
                    *self = ByteBuffer::Single(slice_subrange(a, 0, new_len));
                } else {
                    *self = ByteBuffer::Split([a, slice_subrange(b, 0, new_len - a.len())]);
                }
            },
        }
        assert(self@ =~= old(self)@.take(new_len as int));
    }

    /// Drops the first `count` bytes.
    ///
    /// A split buffer whose first span is used up becomes a single span over
    /// what is left of the second.
    pub fn advance(&mut self, count: usize)
        requires
            count <= old(self)@.len(),
        ensures
            final(self)@ == old(self)@.skip(count as int),
            *old(self) is Split && count >= old(self).first_len() ==> *final(self) is Single,
            *old(self) is Single ==> *final(self) is Single,
    {
        match *self {
            ByteBuffer::Single(buf) => {
                *self = ByteBuffer::Single(slice_subrange(buf, count, buf.len()));
            },
            ByteBuffer::Split(bufs) => {
                let a = bufs[0];
                let b = bufs[1];
                if count < a.len() {
                    *self = ByteBuffer::Split([slice_subrange(a, count, a.len()), b]);
                } else {
                    *self = ByteBuffer::Single(slice_subrange(b, count - a.len(), b.len()));
                }
            },
        }
        assert(self@ =~= old(self)@.skip(count as int));
    }

    /// The next contiguous run of unread bytes, or an error when none is left.
    pub fn chunk(&self) -> (r: Result<&'a [u8], ParseError>)
        ensures
            match r {
                Ok(c) => match *self {
                    ByteBuffer::Single(buf) => buf@.len() > 0 && c@ == buf@,
                    ByteBuffer::Split(bufs) => c@ == bufs[0]@,
                },
                Err(e) => e == ParseError::Eof && self is Single && self@.len() == 0,
            },
    {
        match *self {
            ByteBuffer::Single(buf) => {
                if buf.len() == 0 {
                    Err(ParseError::Eof)
                } else {
                    Ok(buf)
                }
            },
            ByteBuffer::Split(bufs) => Ok(bufs[0]),
        }
    }

    /// Fills `dst` with the next `dst.len()` bytes and drops them from the
    /// buffer.
    ///
    /// Fails, leaving both the buffer and `dst` as they were, when fewer than
    /// `dst.len()` bytes remain. A read that reaches into the second span
    /// leaves a single span over the rest of it.
    pub fn copy_to_slice(&mut self, dst: &mut [u8]) -> (r: Result<(), ParseError>)
        ensures
            final(dst)@.len() == old(dst)@.len(),
            match r {
                Ok(_) => {
                    &&& old(dst)@.len() <= old(self)@.len()
                    &&& final(dst)@ == old(self)@.take(old(dst)@.len() as int)
                    &&& final(self)@ == old(self)@.skip(old(dst)@.len() as int)
                    &&& *old(self) is Split && old(dst)@.len() > old(self).first_len()
                        ==> *final(self) is Single
                    &&& *old(self) is Single ==> *final(self) is Single
                },
                Err(e) => {
                    &&& e == ParseError::Eof
                    &&& old(dst)@.len() > old(self)@.len()
                    &&& *final(self) == *old(self)
                    &&& final(dst)@ == old(dst)@
                },
            },
    {
        let n = dst.len();
        if !self.has(n) {
            return Err(ParseError::Eof);
        }
        match *self {
            ByteBuffer::Single(buf) => {
                copy_into(dst, 0, slice_subrange(buf, 0, n));
                *self = ByteBuffer::Single(slice_subrange(buf, n, buf.len()));
            },
            ByteBuffer::Split(bufs) => {
                let a = bufs[0];
                let b = bufs[1];
                if a.len() >= n {
                    copy_into(dst, 0, slice_subrange(a, 0, n));
                    *self = ByteBuffer::Split([slice_subrange(a, n, a.len()), b]);
                } else {
                    let m = n - a.len();
                    copy_into(dst, 0, a);
                    copy_into(dst, a.len(), slice_subrange(b, 0, m));
                    *self = ByteBuffer::Single(slice_subrange(b, m, b.len()));
                }
            },
        }
        assert(dst@ =~= old(self)@.take(n as int));
        assert(self@ =~= old(self)@.skip(n as int));
        Ok(())
    }

    /// All remaining bytes as one owned vector. The buffer is not advanced.
    pub fn to_vec(&self) -> (v: Vec<u8>)
        ensures
            v@ == self@,
    {
        let mut v: Vec<u8> = Vec::new();
        match *self {
            ByteBuffer::Single(buf) => {
                v.extend_from_slice(buf);
            },
            ByteBuffer::Split(bufs) => {
                v.extend_from_slice(bufs[0]);
                v.extend_from_slice(bufs[1]);
            },
        }
        assert(v@ =~= self@);
        v
    }

    /// All remaining bytes as one contiguous slice: borrowed when the buffer
    /// is a single span, copied when it is split.
    pub fn to_contiguous(&self) -> (r: Cow<'a, [u8]>)
        ensures
            r@ == self@,
            self is Single <==> r is Borrowed,
    {
        match *self {
            ByteBuffer::Single(buf) => Cow::Borrowed(buf),
            ByteBuffer::Split(_) => Cow::Owned(self.to_vec()),
        }
    }
}

} // verus!
