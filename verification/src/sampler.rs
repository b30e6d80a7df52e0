//! Consuming the ring buffer: which bytes are readable, where one record
//! ends, and how far to move the read position when a record is done.
//!
//! The kernel appends records to a circular data region and publishes how
//! far it has written (the head). The consumer owns the position up to which
//! it has read (the tail). Both only ever grow; a position `p` of the stream
//! lives at index `p % size` of the region. This module holds the decisions;
//! mapping the region and the loads and stores on the two positions belong
//! to the caller.

use crate::buffer::{ByteBuffer, ParseError};
use crate::samples::bits::RecordType;
use crate::samples::config::ParseConfig;
use crate::samples::record::{Record as DecodedRecord, RecordEvent, RecordHeader};
use crate::samples::record::RecordView as DecodedRecordView;
use crate::samples::sample_id::{lemma_sample_id_size, SampleId};
use std::borrow::Cow;
use vstd::arithmetic::div_mod::{
    lemma_add_mod_noop,
    lemma_fundamental_div_mod,
    lemma_small_mod,
};
use vstd::prelude::*;
use vstd::slice::slice_subrange;

verus! {

/// How many bytes the consumer is shown when the read position is `tail`
/// and the write position is `head` in a region of `size` bytes: nothing
/// when the two are equal, else the bytes from index `tail % size` up to
/// index `head % size`, going around the end of the region where needed.
pub open spec fn window_len(tail: u64, head: u64, size: nat) -> nat {
    let t = tail as nat % size;
    let h = head as nat % size;
    if tail == head {
        0
    } else if h > t {
        (h - t) as nat
    } else {
        (size - t + h) as nat
    }
}

/// The bytes that the consumer is shown: byte `i` of the window is the byte
/// of the stream at position `tail + i`, which lies at index
/// `(tail + i) % size` of the region `data`.
pub open spec fn window(data: Seq<u8>, tail: u64, head: u64) -> Seq<u8> {
    Seq::new(window_len(tail, head, data.len()), |i: int| data[(tail + i) % (data.len() as int)])
}

/// For as long as the kernel is at most one region ahead of the consumer,
/// the window is what lies between the two positions.
pub proof fn lemma_window_len(tail: u64, head: u64, size: nat)
    requires
        size > 0,
        tail <= head,
        head - tail <= size,
    ensures
        window_len(tail, head, size) == head - tail,
{
    let n = size as int;
    let t = tail as int % n;
    let h = head as int % n;
    let qt = tail as int / n;
    let qh = head as int / n;
    lemma_fundamental_div_mod(tail as int, n);
    lemma_fundamental_div_mod(head as int, n);
    if tail != head {
        let d = qh - qt;
        assert(n * qh - n * qt == n * d) by (nonlinear_arith)
            requires
                d == qh - qt,
        ;
        assert(head - tail == n * d + (h - t));
        if h > t {
            assert(d == 0) by (nonlinear_arith)
                requires
                    -n < n * d < n,
                    n > 0,
            ;
        } else {
            assert(d == 1) by (nonlinear_arith)
                requires
                    0 < n * d < 2 * n,
                    n > 0,
            ;
        }
    }
}

/// The unread bytes of the ring: `None` when there are none, else one span,
/// or two where the bytes wrap around the end of the region. Nothing is
/// copied.
pub fn next_span<'a>(data: &'a [u8], tail: u64, head: u64) -> (r: Option<ByteBuffer<'a>>)
    requires
        data@.len() > 0,
    ensures
        r is None <==> tail == head,
        r matches Some(buf) ==> {
            &&& buf@ == window(data@, tail, head)
            &&& buf@.len() <= data@.len()
            &&& buf is Single <==> head as nat % data@.len() > tail as nat % data@.len()
        },
{
    if tail == head {
        return None;
    }
    let size = data.len();
    let mod_tail = (tail % (size as u64)) as usize;
    let mod_head = (head % (size as u64)) as usize;
    let buf = if mod_head > mod_tail {
        ByteBuffer::Single(slice_subrange(data, mod_tail, mod_head))
    } else {
        ByteBuffer::Split([slice_subrange(data, mod_tail, size), slice_subrange(data, 0, mod_head)])
    };
    proof {
        let n = size as int;
        assert forall|i: int| 0 <= i < buf@.len() implies #[trigger] buf@[i] == data@[(tail + i)
            % n] by {
            lemma_add_mod_noop(tail as int, i, n);
            lemma_small_mod(i as nat, n as nat);
            let x = mod_tail + i;
            if x < n {
                lemma_small_mod(x as nat, n as nat);
            } else {
                lemma_fundamental_div_mod(x, n);
                let q = x / n;
                assert(q == 1) by (nonlinear_arith)
                    requires
                        x == n * q + x % n,
                        0 <= x % n < n,
                        n <= x < 2 * n,
                ;
                assert(n * 1 == n);
            }
        }
        assert(buf@ =~= window(data@, tail, head));
    }
    Some(buf)
}

/// The read position after a record of `len` bytes is done with.
pub fn release(tail: u64, len: u16) -> (r: u64)
    ensures
        r == tail.wrapping_add(len as u64),
        tail + len <= u64::MAX ==> r == tail + len,
{
    tail.wrapping_add(len as u64)
}

/// Bytes that were released are never shown again.
///
/// The consumer stood at `tail`, was shown the window up to `head`, and
/// released `len` of its bytes. Whatever the kernel has written since, up
/// to `later_head`, the next window starts after the released bytes:
/// its byte `i` is the byte at stream position `tail + len + i`, which is
/// no position below `tail + len`.
pub proof fn lemma_release_monotonic(
    data: Seq<u8>,
    tail: u64,
    head: u64,
    len: u16,
    later_head: u64,
)
    requires
        data.len() > 0,
        tail <= head,
        head - tail <= data.len(),
        len <= head - tail,
        head <= later_head,
        later_head - (tail + len) <= data.len(),
    ensures
        tail.wrapping_add(len as u64) == tail + len,
        tail < tail + len ==> tail < tail.wrapping_add(len as u64),
        window_len(tail.wrapping_add(len as u64), later_head, data.len()) == later_head - (tail + len),
        window_len(tail.wrapping_add(len as u64), head, data.len()) == window_len(
            tail,
            head,
            data.len(),
        ) - len,
        forall|i: int|
            0 <= i < later_head - (tail + len) ==> tail + len <= #[trigger] (tail.wrapping_add(
                len as u64,
            ) + i) < later_head,
{
    let next = tail.wrapping_add(len as u64);
    assert(next == tail + len);
    lemma_window_len(next, later_head, data.len());
    lemma_window_len(next, head, data.len());
    lemma_window_len(tail, head, data.len());
}

/// One record as it lies in the ring buffer: its header and its bytes, not
/// yet decoded.
#[derive(Clone, Copy, Debug)]
pub struct Record<'a> {
    header: RecordHeader,
    data: ByteBuffer<'a>,
    config: ParseConfig,
}

impl<'a> Record<'a> {
    /// The header of the record.
    pub closed spec fn header(&self) -> RecordHeader {
        self.header
    }

    /// The bytes of the record after its header.
    pub closed spec fn bytes(&self) -> Seq<u8> {
        self.data@
    }

    /// The configuration under which the record is decoded.
    pub closed spec fn config(&self) -> ParseConfig {
        self.config
    }

    /// Whether the bytes of the record lie in one piece.
    pub closed spec fn contiguous(&self) -> bool {
        self.data is Single
    }

    /// A record holds as many bytes as its header declares beyond itself.
    #[verifier::type_invariant]
    spec fn inv(&self) -> bool {
        self.header.size >= 8 && self.data@.len() == self.header.size - 8
    }

    /// What a record at the front of `s` is: the header, and after it as
    /// many bytes as the header says the record has beyond the header.
    pub open spec fn spec_frame(s: Seq<u8>) -> Result<(RecordHeader, Seq<u8>), ParseError> {
        match RecordHeader::spec_parse(s) {
            None => Err(ParseError::Eof),
            Some((header, rest)) => if header.size < 8 {
                Err(ParseError::InvalidHeader)
            } else if rest.len() < header.size - 8 {
                Err(ParseError::Eof)
            } else {
                Ok((header, rest.take(header.size - 8)))
            },
        }
    }

    /// Cuts the first record off the unread bytes `buf`.
    ///
    /// A header that declares fewer bytes than a header has is a protocol
    /// violation; unread bytes that end before the record does are an
    /// end-of-data error.
    pub fn frame(buf: ByteBuffer<'a>, config: ParseConfig) -> (r: Result<Record<'a>, ParseError>)
        ensures
            match r {
                Ok(rec) => Record::spec_frame(buf@) == Ok::<_, ParseError>(
                    (rec.header(), rec.bytes()),
                ) && rec.config() == config,
                Err(e) => Record::spec_frame(buf@) == Err::<(RecordHeader, Seq<u8>), _>(e),
            },
    {
        let mut data = buf;
        let header = data.parse_header()?;
        if header.size < 8 {
            return Err(ParseError::InvalidHeader);
        }
        let len = (header.size - 8) as usize;
        if !data.has(len) {
            return Err(ParseError::Eof);
        }
        data.truncate(len);
        Ok(Record { header, data, config })
    }

    /// The kind of the record.
    pub fn ty(&self) -> (r: u32)
        ensures
            r == self.header().type_,
    {
        self.header.type_
    }

    /// The flags of the record.
    pub fn misc(&self) -> (r: u16)
        ensures
            r == self.header().misc,
    {
        self.header.misc
    }

    /// How many bytes the record has after its header.
    pub fn len(&self) -> (r: usize)
        ensures
            r == self.bytes().len(),
            r == self.header().size - 8,
    {
        proof {
            use_type_invariant(self);
        }
        self.data.len()
    }

    /// By how much the read position moves when the record is done with:
    /// the length that the header declares.
    pub fn release_len(&self) -> (r: u16)
        ensures
            r == self.header().size,
    {
        self.header.size
    }

    /// The bytes of the record as they lie in the ring: one slice, or two
    /// where the record wraps around the end of the region.
    pub fn data(&self) -> (r: Vec<&'a [u8]>)
        ensures
            self.contiguous() ==> r@.len() == 1 && r@[0]@ == self.bytes(),
            !self.contiguous() ==> r@.len() == 2 && r@[0]@ + r@[1]@ == self.bytes(),
    {
        let mut out: Vec<&'a [u8]> = Vec::new();
        match self.data {
            ByteBuffer::Single(buf) => {
                out.push(buf);
            },
            ByteBuffer::Split(bufs) => {
                out.push(bufs[0]);
                out.push(bufs[1]);
            },
        }
        out
    }

    /// A copy of the bytes of the record.
    pub fn to_vec(&self) -> (r: Vec<u8>)
        ensures
            r@ == self.bytes(),
    {
        self.data.to_vec()
    }

    /// The bytes of the record as one slice: borrowed where they lie in one
    /// piece, copied where they wrap.
    pub fn to_contiguous(&self) -> (r: Cow<'a, [u8]>)
        ensures
            r@ == self.bytes(),
            self.contiguous() <==> r is Borrowed,
    {
        self.data.to_contiguous()
    }

    /// Decodes the record.
    pub fn parse_record(&self) -> (r: Result<DecodedRecord, ParseError>)
        ensures
            match r {
                Ok(v) => DecodedRecord::spec_parse(self.config(), self.header(), self.bytes())
                    == Some(v@),
                Err(e) => e == ParseError::Eof && DecodedRecord::spec_parse(
                    self.config(),
                    self.header(),
                    self.bytes(),
                ) is None,
            },
    {
        let mut data = self.data;
        DecodedRecord::parse(&self.config, &self.header, &mut data)
    }

    /// What the record with header `header` and bytes `s` says of its
    /// source: its identifying block where it has one, else what its
    /// payload says.
    pub open spec fn spec_sample_id(config: ParseConfig, header: RecordHeader, s: Seq<u8>) -> Option<
        SampleId,
    > {
        if DecodedRecord::has_trailer(header) {
            let n = SampleId::spec_expected_size(config);
            if s.len() < n {
                None
            } else {
                Some(SampleId::spec_parse(config, s.skip(s.len() - n)).unwrap().0)
            }
        } else {
            match RecordEvent::spec_parse(config, header, s) {
                Some(event) => Some(SampleId::spec_from_event(event)),
                None => None,
            }
        }
    }

    /// Decodes only what the record says of its source.
    ///
    /// A record with an identifying block need not have a payload that
    /// decodes.
    pub fn parse_sample_id(&self) -> (r: Result<SampleId, ParseError>)
        ensures
            match r {
                Ok(v) => Record::spec_sample_id(self.config(), self.header(), self.bytes())
                    == Some(v),
                Err(e) => e == ParseError::Eof && Record::spec_sample_id(
                    self.config(),
                    self.header(),
                    self.bytes(),
                ) is None,
            },
    {
        let mut data = self.data;
        if self.header.type_ != RecordType::MMAP && self.header.type_ != RecordType::SAMPLE {
            let n = SampleId::expected_size(&self.config);
            if !data.has(n) {
                return Err(ParseError::Eof);
            }
            let (_, mut trailer) = data.split_back(n);
            proof {
                lemma_sample_id_size(self.config, trailer@);
            }
            SampleId::parse(&self.config, &mut trailer)
        } else {
            let event = RecordEvent::parse(&self.config, &self.header, &mut data)?;
            Ok(SampleId::from_event(&event))
        }
    }
}

/// A record that decodes says of its source what
/// [`parse_sample_id`](Record::parse_sample_id) gives for it.
pub proof fn lemma_sample_id_of_record(config: ParseConfig, header: RecordHeader, s: Seq<u8>)
    requires
        DecodedRecord::spec_parse(config, header, s) is Some,
    ensures
        Record::spec_sample_id(config, header, s) == Some(
            DecodedRecord::spec_parse(config, header, s).unwrap().sample_id,
        ),
{
    if !DecodedRecord::has_trailer(header) {
        assert(s.take(s.len() - 0) =~= s);
    }
}

/// The next record of the ring, not yet decoded: `None` when nothing is
/// unread, else the first record of the window.
pub fn next_record<'a>(data: &'a [u8], tail: u64, head: u64, config: ParseConfig) -> (r: Result<
    Option<Record<'a>>,
    ParseError,
>)
    requires
        data@.len() > 0,
    ensures
        tail == head ==> r matches Ok(None),
        tail != head ==> match Record::spec_frame(window(data@, tail, head)) {
            Ok((header, bytes)) => r matches Ok(Some(rec)) && rec.header() == header
                && rec.bytes() == bytes && rec.config() == config,
            Err(e) => r matches Err(f) && f == e,
        },
{
    match next_span(data, tail, head) {
        None => Ok(None),
        Some(buf) => Ok(Some(Record::frame(buf, config)?)),
    }
}

/// A record that was cut off the window lies within it: it is no longer
/// than the window, and byte `i` of what follows its header is the byte at
/// position `tail + 8 + i` of the stream.
pub proof fn lemma_record_in_window(data: Seq<u8>, tail: u64, head: u64)
    requires
        data.len() > 0,
        Record::spec_frame(window(data, tail, head)) is Ok,
    ensures
        ({
            let (header, bytes) = Record::spec_frame(window(data, tail, head))->Ok_0;
            &&& 8 <= header.size <= window_len(tail, head, data.len())
            &&& bytes.len() == header.size - 8
            &&& forall|i: int|
                0 <= i < bytes.len() ==> #[trigger] bytes[i] == data[(tail + 8 + i) % (
                data.len() as int)]
        }),
{
    let w = window(data, tail, head);
    let (header, bytes) = Record::spec_frame(w)->Ok_0;
    assert forall|i: int| 0 <= i < bytes.len() implies #[trigger] bytes[i] == data[(tail + 8 + i)
        % (data.len() as int)] by {
        assert(bytes[i] == w[8 + i]);
        assert(tail + (8 + i) == tail + 8 + i);
    }
}

/// What waiting on the file descriptor of the counter came to.
#[derive(Clone, Copy, Debug, PartialEq, Eq, Structural)]
pub enum PollOutcome {
    /// The time ran out.
    TimedOut,
    /// The descriptor is ready; `hangup` says whether the observed process
    /// has exited.
    Ready { hangup: bool },
    /// The wait was interrupted by a signal.
    Interrupted,
    /// The wait failed for want of resources.
    Failed,
}

/// What a blocking read does after a wait.
#[derive(Clone, Copy, Debug, PartialEq, Eq, Structural)]
pub enum WaitAction {
    /// Give up: there is no record.
    Finish,
    /// Look into the ring once more, without waiting, and take what is
    /// there.
    DrainOnce,
    /// Look into the ring and wait again if it is empty.
    Retry,
    /// The wait cannot go on.
    Fatal,
}

/// What a blocking read does after a wait that came to `outcome`.
///
/// A timeout ends the read. A hang-up means that nothing more will be
/// written, but records may still lie in the ring, so it is looked into one
/// last time. Readiness and an interrupting signal both lead back to the
/// ring; any other failure is fatal.
pub fn after_poll(outcome: PollOutcome) -> (r: WaitAction)
    ensures
        r == match outcome {
            PollOutcome::TimedOut => WaitAction::Finish,
            PollOutcome::Ready { hangup: true } => WaitAction::DrainOnce,
            PollOutcome::Ready { hangup: false } => WaitAction::Retry,
            PollOutcome::Interrupted => WaitAction::Retry,
            PollOutcome::Failed => WaitAction::Fatal,
        },
{
    match outcome {
        PollOutcome::TimedOut => WaitAction::Finish,
        PollOutcome::Ready { hangup } => if hangup {
            WaitAction::DrainOnce
        } else {
            WaitAction::Retry
        },
        PollOutcome::Interrupted => WaitAction::Retry,
        PollOutcome::Failed => WaitAction::Fatal,
    }
}

/// The timeout to wait with when `remaining` milliseconds are left until
/// the deadline: that many, but no more than the largest timeout there is;
/// -1, which waits without end, where there is no deadline.
pub fn poll_timeout(remaining: Option<u128>) -> (r: i32)
    ensures
        r == match remaining {
            Some(ms) => if ms > i32::MAX {
                i32::MAX as int
            } else {
                ms as int
            },
            None => -1,
        },
{
    match remaining {
        Some(ms) => if ms > i32::MAX as u128 {
            i32::MAX
        } else {
            ms as i32
        },
        None => -1,
    }
}

/// How the kernel converts a cycle count into nanoseconds, as published in
/// the control page of the ring buffer.
#[derive(Clone, Copy, Debug, PartialEq, Eq, Structural)]
pub struct TimeConversion {
    pub time_offset: u64,
    pub time_mult: u32,
    pub time_shift: u16,
    pub time_cycles: u64,
    pub time_mask: u64,
}

impl TimeConversion {
    /// The nanoseconds that correspond to the cycle count `cyc`.
    ///
    /// With `short` set the cycle counter is narrower than 64 bits and the
    /// count is first widened around `time_cycles`. All arithmetic wraps
    /// around at 64 bits.
    pub open spec fn spec_delta(&self, cyc: u64, short: bool) -> u64 {
        let cyc = if short {
            self.time_cycles.wrapping_add(cyc.wrapping_sub(self.time_cycles) & self.time_mask)
        } else {
            cyc
        };
        let mult = self.time_mult as u64;
        let quot = cyc >> self.time_shift;
        let rem = cyc & ((1u64 << self.time_shift) - 1) as u64;
        self.time_offset.wrapping_add(
            quot.wrapping_mul(mult).wrapping_add(rem.wrapping_mul(mult) >> self.time_shift),
        )
    }

    /// The nanoseconds that correspond to the cycle count `cyc`.
    pub fn delta(&self, cyc: u64, short: bool) -> (r: u64)
        requires
            self.time_shift < 64,
        ensures
            r == self.spec_delta(cyc, short),
    {
        let cyc = if short {
            self.time_cycles.wrapping_add(cyc.wrapping_sub(self.time_cycles) & self.time_mask)
        } else {
            cyc
        };
        let shift = self.time_shift;
        let mult = self.time_mult as u64;
        let one = 1u64 << shift;
        assert(one >= 1) by (bit_vector)
            requires
                one == 1u64 << shift,
                shift < 64,
        ;
        let quot = cyc >> shift;
        let rem = cyc & (one - 1);
        self.time_offset.wrapping_add(
            quot.wrapping_mul(mult).wrapping_add(rem.wrapping_mul(mult) >> shift),
        )
    }
}

/// The value of a counter as read without a system call.
#[derive(Clone, Copy, Debug, PartialEq, Eq, Structural)]
pub struct UserReadData {
    pub time_enabled: u64,
    pub time_running: u64,
    pub value: Option<u64>,
}

impl UserReadData {
    /// For how many nanoseconds the counter was enabled.
    pub fn time_enabled(&self) -> (r: u64)
        ensures
            r == self.time_enabled,
    {
        self.time_enabled
    }

    /// For how many nanoseconds the counter was counting.
    pub fn time_running(&self) -> (r: u64)
        ensures
            r == self.time_running,
    {
        self.time_running
    }

    /// The value of the counter, if it could be read.
    pub fn count(&self) -> (r: Option<u64>)
        ensures
            r == self.value,
    {
        self.value
    }

    /// The count scaled up from the time the counter was counting to the
    /// time it was enabled: `count * time_enabled / time_running`, computed
    /// on quotient and remainder so that the product does not overflow early.
    pub open spec fn spec_scaled(&self, count: u64) -> int {
        (count / self.time_running) * self.time_enabled + ((count % self.time_running)
            * self.time_enabled) / (self.time_running as int)
    }

    /// The value of the counter, scaled to the time it was enabled.
    pub fn scaled_count(&self) -> (r: Option<u64>)
        requires
            self.value matches Some(count) ==> {
                &&& self.time_running != 0
                &&& (count % self.time_running) * self.time_enabled <= u64::MAX
                &&& self.spec_scaled(count) <= u64::MAX
            },
        ensures
            r == match self.value {
                Some(count) => Some(self.spec_scaled(count) as u64),
                None => None,
            },
    {
        match self.value {
            Some(count) => {
                let quot = count / self.time_running;
                let rem = count % self.time_running;
                assert(0 <= (rem * self.time_enabled) / (self.time_running as int)) by (nonlinear_arith)
                    requires
                        self.time_running > 0,
                ;
                assert(quot * self.time_enabled <= self.spec_scaled(count));
                Some(quot * self.time_enabled + (rem * self.time_enabled) / self.time_running)
            },
            None => None,
        }
    }
}

/// One attempt at reading a counter without a system call.
///
/// The control page changes while the kernel updates it. A read therefore
/// notes the sequence number of the page first, then takes what it needs,
/// and in the end compares the sequence number again: the values count only
/// where the number is the same.
#[derive(Clone, Copy, Debug, PartialEq, Eq, Structural)]
pub struct PmcReadData {
    pub seq: u32,
    pub capabilities: u64,
    pub enabled: u64,
    pub running: u64,
    pub index: u32,
    /// The count, as 64 bits in two's complement.
    pub count: u64,
    pub has_pmc_value: bool,
}

/// The lowest `width` bits of `pmc`, sign-extended to 64 bits.
pub open spec fn sign_extend(pmc: u64, width: u16) -> u64 {
    let low = (pmc << (64 - width) as u16) >> (64 - width) as u16;
    if width < 64 && (low >> (width - 1) as u16) & 1 == 1 {
        low | (u64::MAX << width)
    } else {
        low
    }
}

/// The lowest `width` bits of `pmc`, sign-extended to 64 bits.
pub fn sign_extend_value(pmc: u64, width: u16) -> (r: u64)
    requires
        1 <= width <= 64,
    ensures
        r == sign_extend(pmc, width),
{
    let shift: u16 = 64 - width;
    let low = (pmc << shift) >> shift;
    if width < 64 && (low >> (width - 1)) & 1 == 1 {
        low | (u64::MAX << width)
    } else {
        low
    }
}

impl PmcReadData {
    /// An attempt that starts from what the control page held when its
    /// sequence number was `seq`.
    pub fn new(seq: u32, capabilities: u64, enabled: u64, running: u64, index: u32, offset: u64) -> (r:
        Self)
        ensures
            r == (PmcReadData {
                seq,
                capabilities,
                enabled,
                running,
                index,
                count: offset,
                has_pmc_value: false,
            }),
    {
        PmcReadData {
            seq,
            capabilities,
            enabled,
            running,
            index,
            count: offset,
            has_pmc_value: false,
        }
    }

    /// Whether the counter may be read with the instruction of the
    /// processor: bit 2 of the capabilities.
    #[verifier::allow_in_spec]
    pub fn cap_user_rdpmc(&self) -> bool
        returns
            (self.capabilities >> 2) & 1 != 0,
    {
        (self.capabilities >> 2) & 1 != 0
    }

    /// Whether cycle counts may be converted to time: bit 3 of the
    /// capabilities.
    #[verifier::allow_in_spec]
    pub fn cap_user_time(&self) -> bool
        returns
            (self.capabilities >> 3) & 1 != 0,
    {
        (self.capabilities >> 3) & 1 != 0
    }

    /// Whether the cycle counter is narrower than 64 bits: bit 5 of the
    /// capabilities.
    #[verifier::allow_in_spec]
    pub fn cap_user_time_short(&self) -> bool
        returns
            (self.capabilities >> 5) & 1 != 0,
    {
        (self.capabilities >> 5) & 1 != 0
    }

    /// The number of the hardware counter to read, if there is one.
    pub open spec fn spec_index(&self) -> Option<u32> {
        if self.cap_user_rdpmc() && self.index != 0 {
            Some((self.index - 1) as u32)
        } else {
            None
        }
    }

    /// The number of the hardware counter to read, if there is one.
    pub fn index(&self) -> (r: Option<u32>)
        ensures
            r == self.spec_index(),
    {
        if self.cap_user_rdpmc() && self.index != 0 {
            Some(self.index - 1)
        } else {
            None
        }
    }

    /// Brings the enabled and the running time up to the cycle count `cyc`.
    ///
    /// A counter that is not active on the processor has exact times
    /// already, and they stay.
    pub fn with_tsc(&mut self, cyc: u64, time: &TimeConversion)
        requires
            old(self).cap_user_time(),
            time.time_shift < 64,
        ensures
            *final(self) == if old(self).spec_index() is Some {
                PmcReadData {
                    enabled: old(self).enabled.wrapping_add(
                        time.spec_delta(cyc, old(self).cap_user_time_short()),
                    ),
                    running: old(self).running.wrapping_add(
                        time.spec_delta(cyc, old(self).cap_user_time_short()),
                    ),
                    ..*old(self)
                }
            } else {
                *old(self)
            },
    {
        if !self.cap_user_rdpmc() || self.index == 0 {
            return ;
        }
        let delta = time.delta(cyc, self.cap_user_time_short());
        self.enabled = self.enabled.wrapping_add(delta);
        self.running = self.running.wrapping_add(delta);
    }

    /// Adds what the hardware counter holds, `pmc`, of which the lowest
    /// `pmc_width` bits count, to the count.
    pub fn with_pmc(&mut self, pmc: u64, pmc_width: u16)
        requires
            old(self).spec_index() is Some,
            1 <= pmc_width <= 64,
        ensures
            *final(self) == (PmcReadData {
                count: old(self).count.wrapping_add(sign_extend(pmc, pmc_width)),
                has_pmc_value: true,
                ..*old(self)
            }),
    {
        self.count = self.count.wrapping_add(sign_extend_value(pmc, pmc_width));
        self.has_pmc_value = true;
    }

    /// Ends the attempt. `nseq` is the sequence number of the control page
    /// now: the attempt gives a result only where it is the number that the
    /// attempt started from.
    pub fn finish(self, nseq: u32) -> (r: Option<UserReadData>)
        ensures
            r == if nseq == self.seq {
                Some(
                    UserReadData {
                        time_enabled: self.enabled,
                        time_running: self.running,
                        value: if self.has_pmc_value {
                            Some(self.count)
                        } else {
                            None
                        },
                    },
                )
            } else {
                None
            },
    {
        if nseq != self.seq {
            return None;
        }
        Some(
            UserReadData {
                time_enabled: self.enabled,
                time_running: self.running,
                value: if self.has_pmc_value {
                    Some(self.count)
                } else {
                    None
                },
            },
        )
    }
}

} // verus!
