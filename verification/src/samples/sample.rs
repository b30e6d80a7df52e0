//! The sample record and its decoder.

use crate::buffer::{ByteBuffer, ParseError};
use crate::decode::{take_blob, take_u32, take_u64, take_u64s, u64_at, Cursor};
use crate::flags::SampleBranchFlag;
use crate::samples::bits::SampleType;
use crate::samples::branch::BranchEntry;
use crate::samples::config::ParseConfig;
use crate::samples::data_source::{DataSource, Txn};
use crate::samples::read_value::{ReadValue, ReadValueView};
use crate::samples::registers::{Registers, RegistersView};
use vstd::prelude::*;

verus! {

/// A sample taken by the kernel (`PERF_RECORD_SAMPLE`).
///
/// Every field but `extra` is present only where the sample type of the
/// counter selects it.
#[derive(Clone, Debug)]
pub struct Sample {
    pub ip: Option<u64>,
    pub pid: Option<u32>,
    pub tid: Option<u32>,
    pub time: Option<u64>,
    pub addr: Option<u64>,
    pub id: Option<u64>,
    pub stream_id: Option<u64>,
    pub cpu: Option<u32>,
    pub period: Option<u64>,
    pub value: Option<ReadValue>,
    pub callchain: Option<Vec<u64>>,
    pub raw: Option<Vec<u8>>,
    pub lbr_hw_index: Option<u64>,
    pub lbr: Option<Vec<BranchEntry>>,
    pub regs_user: Option<Registers>,
    pub stack_user: Option<Vec<u8>>,
    pub weight: Option<u64>,
    pub data_src: Option<DataSource>,
    pub transaction: Option<Txn>,
    pub regs_intr: Option<Registers>,
    pub phys_addr: Option<u64>,
    pub cgroup: Option<u64>,
    pub data_page_size: Option<u64>,
    pub code_page_size: Option<u64>,
    pub aux: Option<Vec<u8>>,
    /// The bytes after the last known field: fields that a newer kernel
    /// wrote and this decoder does not know.
    pub extra: Vec<u8>,
}

/// A [`Sample`] with sequences in place of vectors.
pub struct SampleView {
    pub ip: Option<u64>,
    pub pid: Option<u32>,
    pub tid: Option<u32>,
    pub time: Option<u64>,
    pub addr: Option<u64>,
    pub id: Option<u64>,
    pub stream_id: Option<u64>,
    pub cpu: Option<u32>,
    pub period: Option<u64>,
    pub value: Option<ReadValueView>,
    pub callchain: Option<Seq<u64>>,
    pub raw: Option<Seq<u8>>,
    pub lbr_hw_index: Option<u64>,
    pub lbr: Option<Seq<BranchEntry>>,
    pub regs_user: Option<RegistersView>,
    pub stack_user: Option<Seq<u8>>,
    pub weight: Option<u64>,
    pub data_src: Option<DataSource>,
    pub transaction: Option<Txn>,
    pub regs_intr: Option<RegistersView>,
    pub phys_addr: Option<u64>,
    pub cgroup: Option<u64>,
    pub data_page_size: Option<u64>,
    pub code_page_size: Option<u64>,
    pub aux: Option<Seq<u8>>,
    pub extra: Seq<u8>,
}

/// The view of an optional vector.
pub open spec fn opt_seq<T>(v: Option<Vec<T>>) -> Option<Seq<T>> {
    match v {
        Some(v) => Some(v@),
        None => None,
    }
}

/// The view of an optional register snapshot.
pub open spec fn opt_regs(v: Option<Registers>) -> Option<RegistersView> {
    match v {
        Some(v) => Some(v@),
        None => None,
    }
}

/// The view of an optional branch stack.
pub open spec fn opt_lbr(v: Option<(Option<u64>, Vec<BranchEntry>)>) -> Option<
    (Option<u64>, Seq<BranchEntry>),
> {
    match v {
        Some(l) => Some((l.0, l.1@)),
        None => None,
    }
}

/// The view of an optional counter value.
pub open spec fn opt_value(v: Option<ReadValue>) -> Option<ReadValueView> {
    match v {
        Some(v) => Some(v@),
        None => None,
    }
}

impl View for Sample {
    type V = SampleView;

    open spec fn view(&self) -> SampleView {
        SampleView {
            ip: self.ip,
            pid: self.pid,
            tid: self.tid,
            time: self.time,
            addr: self.addr,
            id: self.id,
            stream_id: self.stream_id,
            cpu: self.cpu,
            period: self.period,
            value: opt_value(self.value),
            callchain: opt_seq(self.callchain),
            raw: opt_seq(self.raw),
            lbr_hw_index: self.lbr_hw_index,
            lbr: opt_seq(self.lbr),
            regs_user: opt_regs(self.regs_user),
            stack_user: opt_seq(self.stack_user),
            weight: self.weight,
            data_src: self.data_src,
            transaction: self.transaction,
            regs_intr: opt_regs(self.regs_intr),
            phys_addr: self.phys_addr,
            cgroup: self.cgroup,
            data_page_size: self.data_page_size,
            code_page_size: self.code_page_size,
            aux: opt_seq(self.aux),
            extra: self.extra@,
        }
    }
}

/// A 64-bit count and then that many 64-bit integers off the front of `s`:
/// the layout of a call chain.
pub open spec fn take_callchain(s: Seq<u8>) -> Option<(Seq<u64>, Seq<u8>)> {
    if s.len() >= 8 {
        take_u64s(s.skip(8), u64_at(s, 0) as nat)
    } else {
        None
    }
}

/// The branch stack off the front of `s`: a 64-bit count, a 64-bit hardware
/// index where the branch sample type has `HW_INDEX`, and then as many
/// branch entries as the count says.
pub open spec fn take_lbr(config: ParseConfig, s: Seq<u8>) -> Option<
    ((Option<u64>, Seq<BranchEntry>), Seq<u8>),
> {
    let c = Cursor::start(s);
    let (count, c) = c.field(true, take_u64(c.rest));
    let (hw_index, c) = c.field(
        config.branch_sample_type.contains(SampleBranchFlag::HW_INDEX),
        take_u64(c.rest),
    );
    let (entries, c) = c.field(true, BranchEntry::take_n(c.rest, count.unwrap() as nat));
    if c.ok {
        Some(((hw_index, entries.unwrap()), c.rest))
    } else {
        None
    }
}

/// The user stack off the front of `s`: a length-prefixed blob, followed,
/// where the blob is not empty, by the 64-bit number of bytes that were
/// really captured. The stack is the blob cut down to that number.
pub open spec fn take_stack_user(s: Seq<u8>) -> Option<(Seq<u8>, Seq<u8>)> {
    match take_blob(s) {
        None => None,
        Some((data, rest)) => if data.len() == 0 {
            Some((data, rest))
        } else {
            match take_u64(rest) {
                None => None,
                Some((dyn_len, rest)) => Some(
                    (
                        if dyn_len < data.len() {
                            data.take(dyn_len as int)
                        } else {
                            data
                        },
                        rest,
                    ),
                ),
            }
        },
    }
}

/// Decodes a counter value where `present` holds.
fn opt_value_field(config: &ParseConfig, present: bool, buf: &mut ByteBuffer) -> (r: Result<
    Option<ReadValue>,
    ParseError,
>)
    ensures
        ({
            let (v, c) = Cursor::start(old(buf)@).field(present, ReadValue::spec_parse(*config, old(buf)@));
            match r {
                Ok(x) => c.ok && opt_value(x) == v && final(buf)@ == c.rest,
                Err(e) => e == ParseError::Eof && !c.ok,
            }
        }),
{
    if present {
        Ok(Some(ReadValue::parse(config, buf)?))
    } else {
        Ok(None)
    }
}

/// Decodes a call chain where `present` holds.
fn opt_callchain_field(present: bool, buf: &mut ByteBuffer) -> (r: Result<
    Option<Vec<u64>>,
    ParseError,
>)
    ensures
        ({
            let (v, c) = Cursor::start(old(buf)@).field(present, take_callchain(old(buf)@));
            match r {
                Ok(x) => c.ok && opt_seq(x) == v && final(buf)@ == c.rest,
                Err(e) => e == ParseError::Eof && !c.ok,
            }
        }),
{
    if present {
        let len = buf.parse_u64()?;
        Ok(Some(buf.parse_u64s(len)?))
    } else {
        Ok(None)
    }
}

/// Decodes a length-prefixed blob where `present` holds.
fn opt_blob_field(present: bool, buf: &mut ByteBuffer) -> (r: Result<
    Option<Vec<u8>>,
    ParseError,
>)
    ensures
        ({
            let (v, c) = Cursor::start(old(buf)@).field(present, take_blob(old(buf)@));
            match r {
                Ok(x) => c.ok && opt_seq(x) == v && final(buf)@ == c.rest,
                Err(e) => e == ParseError::Eof && !c.ok,
            }
        }),
{
    if present {
        Ok(Some(buf.parse_blob()?))
    } else {
        Ok(None)
    }
}

/// Decodes a branch stack where `present` holds.
fn opt_lbr_field(config: &ParseConfig, present: bool, buf: &mut ByteBuffer) -> (r: Result<
    Option<(Option<u64>, Vec<BranchEntry>)>,
    ParseError,
>)
    ensures
        ({
            let (v, c) = Cursor::start(old(buf)@).field(present, take_lbr(*config, old(buf)@));
            match r {
                Ok(x) => c.ok && opt_lbr(x) == v && final(buf)@ == c.rest,
                Err(e) => e == ParseError::Eof && !c.ok,
            }
        }),
{
    if present {
        let len = buf.parse_u64()?;
        let hw_index = buf.parse_opt_u64(
            config.branch_sample_type.contains(SampleBranchFlag::HW_INDEX),
        )?;
        let lbr = BranchEntry::parse_n(config, buf, len)?;
        Ok(Some((hw_index, lbr)))
    } else {
        Ok(None)
    }
}

/// Decodes a register snapshot taken with `mask` where `present` holds.
fn opt_regs_field(mask: u64, present: bool, buf: &mut ByteBuffer) -> (r: Result<
    Option<Registers>,
    ParseError,
>)
    ensures
        ({
            let (v, c) = Cursor::start(old(buf)@).field(present, Registers::spec_parse(mask, old(buf)@));
            match r {
                Ok(x) => c.ok && opt_regs(x) == v && final(buf)@ == c.rest,
                Err(e) => e == ParseError::Eof && !c.ok,
            }
        }),
{
    if present {
        Ok(Some(Registers::parse_regs(mask, buf)?))
    } else {
        Ok(None)
    }
}

/// Decodes a user stack where `present` holds.
fn opt_stack_field(present: bool, buf: &mut ByteBuffer) -> (r: Result<
    Option<Vec<u8>>,
    ParseError,
>)
    ensures
        ({
            let (v, c) = Cursor::start(old(buf)@).field(present, take_stack_user(old(buf)@));
            match r {
                Ok(x) => c.ok && opt_seq(x) == v && final(buf)@ == c.rest,
                Err(e) => e == ParseError::Eof && !c.ok,
            }
        }),
{
    if present {
        let mut data = buf.parse_blob()?;
        if data.len() != 0 {
            let dyn_len = buf.parse_u64()?;
            if dyn_len < data.len() as u64 {
                data.truncate(dyn_len as usize);
            }
        }
        Ok(Some(data))
    } else {
        Ok(None)
    }
}

/// Decodes a data source where `present` holds.
fn opt_data_src_field(config: &ParseConfig, present: bool, buf: &mut ByteBuffer) -> (r: Result<
    Option<DataSource>,
    ParseError,
>)
    ensures
        ({
            let (v, c) = Cursor::start(old(buf)@).field(present, DataSource::spec_parse(old(buf)@));
            match r {
                Ok(x) => c.ok && x == v && final(buf)@ == c.rest,
                Err(e) => e == ParseError::Eof && !c.ok,
            }
        }),
{
    if present {
        Ok(Some(DataSource::parse(config, buf)?))
    } else {
        Ok(None)
    }
}

impl Sample {
    /// The sample without any field and without extra bytes.
    pub open spec fn spec_empty() -> SampleView {
        SampleView {
            ip: None,
            pid: None,
            tid: None,
            time: None,
            addr: None,
            id: None,
            stream_id: None,
            cpu: None,
            period: None,
            value: None,
            callchain: None,
            raw: None,
            lbr_hw_index: None,
            lbr: None,
            regs_user: None,
            stack_user: None,
            weight: None,
            data_src: None,
            transaction: None,
            regs_intr: None,
            phys_addr: None,
            cgroup: None,
            data_page_size: None,
            code_page_size: None,
            aux: None,
            extra: Seq::empty(),
        }
    }

    /// The sample without any field and without extra bytes.
    pub fn empty() -> (r: Sample)
        ensures
            r@ == Sample::spec_empty(),
    {
        Sample {
            ip: None,
            pid: None,
            tid: None,
            time: None,
            addr: None,
            id: None,
            stream_id: None,
            cpu: None,
            period: None,
            value: None,
            callchain: None,
            raw: None,
            lbr_hw_index: None,
            lbr: None,
            regs_user: None,
            stack_user: None,
            weight: None,
            data_src: None,
            transaction: None,
            regs_intr: None,
            phys_addr: None,
            cgroup: None,
            data_page_size: None,
            code_page_size: None,
            aux: None,
            extra: Vec::new(),
        }
    }

    /// The first group of fields, the fixed-width ones that say where and
    /// when the sample was taken: identifier, instruction pointer, process
    /// and thread id, time, address, id, stream id, CPU with four reserved
    /// bytes, period. The identifier is the id where no id field follows.
    #[verifier::opaque]
    pub open spec fn take_ids(config: ParseConfig, v: SampleView, c: Cursor) -> (
        SampleView,
        Cursor,
    ) {
        let sty = config.sample_type;
        let (identifier, c) = c.field(sty.contains(SampleType::IDENTIFIER), take_u64(c.rest));
        let (ip, c) = c.field(sty.contains(SampleType::IP), take_u64(c.rest));
        let (pid, c) = c.field(sty.contains(SampleType::TID), take_u32(c.rest));
        let (tid, c) = c.field(sty.contains(SampleType::TID), take_u32(c.rest));
        let (time, c) = c.field(sty.contains(SampleType::TIME), take_u64(c.rest));
        let (addr, c) = c.field(sty.contains(SampleType::ADDR), take_u64(c.rest));
        let (id, c) = c.field(sty.contains(SampleType::ID), take_u64(c.rest));
        let (stream_id, c) = c.field(sty.contains(SampleType::STREAM_ID), take_u64(c.rest));
        let (cpu, c) = c.field(sty.contains(SampleType::CPU), take_u32(c.rest));
        let (reserved, c) = c.field(sty.contains(SampleType::CPU), take_u32(c.rest));
        let (period, c) = c.field(sty.contains(SampleType::PERIOD), take_u64(c.rest));
        (
            SampleView {
                ip,
                pid,
                tid,
                time,
                addr,
                id: if id is Some {
                    id
                } else {
                    identifier
                },
                stream_id,
                cpu,
                period,
                ..v
            },
            c,
        )
    }

    /// The second group of fields, those of variable length: counter value,
    /// call chain, raw data, branch stack, user registers, user stack.
    #[verifier::opaque]
    pub open spec fn take_payload(config: ParseConfig, v: SampleView, c: Cursor) -> (
        SampleView,
        Cursor,
    ) {
        let sty = config.sample_type;
        let (value, c) = c.field(
            sty.contains(SampleType::READ),
            ReadValue::spec_parse(config, c.rest),
        );
        let (callchain, c) = c.field(
            sty.contains(SampleType::CALLCHAIN),
            take_callchain(c.rest),
        );
        let (raw, c) = c.field(sty.contains(SampleType::RAW), take_blob(c.rest));
        let (lbr, c) = c.field(
            sty.contains(SampleType::BRANCH_STACK),
            take_lbr(config, c.rest),
        );
        let (regs_user, c) = c.field(
            sty.contains(SampleType::REGS_USER),
            Registers::spec_parse(config.regs_user, c.rest),
        );
        let (stack_user, c) = c.field(
            sty.contains(SampleType::STACK_USER),
            take_stack_user(c.rest),
        );
        (
            SampleView {
                value,
                callchain,
                raw,
                lbr_hw_index: match lbr {
                    Some(l) => l.0,
                    None => None,
                },
                lbr: match lbr {
                    Some(l) => Some(l.1),
                    None => None,
                },
                regs_user,
                stack_user,
                ..v
            },
            c,
        )
    }

    /// The third group of fields: weight, data source, transaction,
    /// interrupt registers, physical address, cgroup, data page size, code
    /// page size, aux data.
    #[verifier::opaque]
    pub open spec fn take_tail(config: ParseConfig, v: SampleView, c: Cursor) -> (
        SampleView,
        Cursor,
    ) {
        let sty = config.sample_type;
        let (weight, c) = c.field(
            sty.contains(SampleType::WEIGHT) || sty.contains(SampleType::WEIGHT_STRUCT),
            take_u64(c.rest),
        );
        let (data_src, c) = c.field(
            sty.contains(SampleType::DATA_SRC),
            DataSource::spec_parse(c.rest),
        );
        let (transaction, c) = c.field(sty.contains(SampleType::TRANSACTION), take_u64(c.rest));
        let (regs_intr, c) = c.field(
            sty.contains(SampleType::REGS_INTR),
            Registers::spec_parse(config.regs_intr, c.rest),
        );
        let (phys_addr, c) = c.field(sty.contains(SampleType::PHYS_ADDR), take_u64(c.rest));
        let (cgroup, c) = c.field(sty.contains(SampleType::CGROUP), take_u64(c.rest));
        let (data_page_size, c) = c.field(
            sty.contains(SampleType::DATA_PAGE_SIZE),
            take_u64(c.rest),
        );
        let (code_page_size, c) = c.field(
            sty.contains(SampleType::CODE_PAGE_SIZE),
            take_u64(c.rest),
        );
        let (aux, c) = c.field(sty.contains(SampleType::AUX), take_blob(c.rest));
        (
            SampleView {
                weight,
                data_src,
                transaction: match transaction {
                    Some(bits) => Some(Txn { bits }),
                    None => None,
                },
                regs_intr,
                phys_addr,
                cgroup,
                data_page_size,
                code_page_size,
                aux,
                ..v
            },
            c,
        )
    }

    /// The sample that `s` holds under `config`.
    ///
    /// The fields come in the order in which the kernel writes them: the
    /// three groups one after the other, each field only where the sample
    /// type selects it. Whatever is left after the last field is `extra`,
    /// so the sample takes all of `s`.
    pub open spec fn spec_parse(config: ParseConfig, s: Seq<u8>) -> Option<(SampleView, Seq<u8>)> {
        let (v, c) = Sample::take_ids(config, Sample::spec_empty(), Cursor::start(s));
        let (v, c) = Sample::take_payload(config, v, c);
        let (v, c) = Sample::take_tail(config, v, c);
        if c.ok {
            Some((SampleView { extra: c.rest, ..v }, Seq::empty()))
        } else {
            None
        }
    }

    /// Decodes the first group of fields into `self`.
    fn parse_ids(&mut self, config: &ParseConfig, buf: &mut ByteBuffer) -> (r: Result<
        (),
        ParseError,
    >)
        ensures
            ({
                let (v, c) = Sample::take_ids(*config, old(self)@, Cursor::start(old(buf)@));
                match r {
                    Ok(_) => c.ok && c.rest == final(buf)@ && final(self)@ == v,
                    Err(e) => e == ParseError::Eof && !c.ok,
                }
            }),
    {
        reveal(Sample::take_ids);
        let sty = config.sample_type;
        let identifier = buf.parse_opt_u64(sty.contains(SampleType::IDENTIFIER))?;
        let ip = buf.parse_opt_u64(sty.contains(SampleType::IP))?;
        let pid = buf.parse_opt_u32(sty.contains(SampleType::TID))?;
        let tid = buf.parse_opt_u32(sty.contains(SampleType::TID))?;
        let time = buf.parse_opt_u64(sty.contains(SampleType::TIME))?;
        let addr = buf.parse_opt_u64(sty.contains(SampleType::ADDR))?;
        let id = buf.parse_opt_u64(sty.contains(SampleType::ID))?;
        let stream_id = buf.parse_opt_u64(sty.contains(SampleType::STREAM_ID))?;
        let cpu = buf.parse_opt_u32(sty.contains(SampleType::CPU))?;
        let _ = buf.parse_opt_u32(sty.contains(SampleType::CPU))?;
        let period = buf.parse_opt_u64(sty.contains(SampleType::PERIOD))?;
        self.ip = ip;
        self.pid = pid;
        self.tid = tid;
        self.time = time;
        self.addr = addr;
        self.id = if id.is_some() {
            id
        } else {
            identifier
        };
        self.stream_id = stream_id;
        self.cpu = cpu;
        self.period = period;
        Ok(())
    }

    /// Decodes the second group of fields into `self`.
    fn parse_payload(&mut self, config: &ParseConfig, buf: &mut ByteBuffer) -> (r: Result<
        (),
        ParseError,
    >)
        ensures
            ({
                let (v, c) = Sample::take_payload(*config, old(self)@, Cursor::start(old(buf)@));
                match r {
                    Ok(_) => c.ok && c.rest == final(buf)@ && final(self)@ == v,
                    Err(e) => e == ParseError::Eof && !c.ok,
                }
            }),
    {
        reveal(Sample::take_payload);
        let sty = config.sample_type;
        let value = opt_value_field(config, sty.contains(SampleType::READ), buf)?;
        let callchain = opt_callchain_field(sty.contains(SampleType::CALLCHAIN), buf)?;
        let raw = opt_blob_field(sty.contains(SampleType::RAW), buf)?;
        let lbr = opt_lbr_field(config, sty.contains(SampleType::BRANCH_STACK), buf)?;
        let regs_user = opt_regs_field(
            config.regs_user,
            sty.contains(SampleType::REGS_USER),
            buf,
        )?;
        let stack_user = opt_stack_field(sty.contains(SampleType::STACK_USER), buf)?;
        self.value = value;
        self.callchain = callchain;
        self.raw = raw;
        match lbr {
            Some((hw_index, entries)) => {
                self.lbr_hw_index = hw_index;
                self.lbr = Some(entries);
            },
            None => {
                self.lbr_hw_index = None;
                self.lbr = None;
            },
        }
        self.regs_user = regs_user;
        self.stack_user = stack_user;
        Ok(())
    }

    /// Decodes the third group of fields into `self`.
    fn parse_tail(&mut self, config: &ParseConfig, buf: &mut ByteBuffer) -> (r: Result<
        (),
        ParseError,
    >)
        ensures
            ({
                let (v, c) = Sample::take_tail(*config, old(self)@, Cursor::start(old(buf)@));
                match r {
                    Ok(_) => c.ok && c.rest == final(buf)@ && final(self)@ == v,
                    Err(e) => e == ParseError::Eof && !c.ok,
                }
            }),
    {
        reveal(Sample::take_tail);
        let sty = config.sample_type;
        let weight = buf.parse_opt_u64(
            sty.contains(SampleType::WEIGHT) || sty.contains(SampleType::WEIGHT_STRUCT),
        )?;
        let data_src = opt_data_src_field(config, sty.contains(SampleType::DATA_SRC), buf)?;
        let transaction = buf.parse_opt_u64(sty.contains(SampleType::TRANSACTION))?;
        let regs_intr = opt_regs_field(
            config.regs_intr,
            sty.contains(SampleType::REGS_INTR),
            buf,
        )?;
        let phys_addr = buf.parse_opt_u64(sty.contains(SampleType::PHYS_ADDR))?;
        let cgroup = buf.parse_opt_u64(sty.contains(SampleType::CGROUP))?;
        let data_page_size = buf.parse_opt_u64(sty.contains(SampleType::DATA_PAGE_SIZE))?;
        let code_page_size = buf.parse_opt_u64(sty.contains(SampleType::CODE_PAGE_SIZE))?;
        let aux = opt_blob_field(sty.contains(SampleType::AUX), buf)?;
        self.weight = weight;
        self.data_src = data_src;
        self.transaction = match transaction {
            Some(bits) => Some(Txn::new(bits)),
            None => None,
        };
        self.regs_intr = regs_intr;
        self.phys_addr = phys_addr;
        self.cgroup = cgroup;
        self.data_page_size = data_page_size;
        self.code_page_size = code_page_size;
        self.aux = aux;
        Ok(())
    }

    /// Decodes the sample that `buf` holds. On success nothing is left in
    /// `buf`.
    pub fn parse(config: &ParseConfig, buf: &mut ByteBuffer) -> (r: Result<Sample, ParseError>)
        ensures
            match r {
                Ok(v) => Sample::spec_parse(*config, old(buf)@) == Some((v@, final(buf)@)),
                Err(e) => e == ParseError::Eof && Sample::spec_parse(*config, old(buf)@) is None,
            },
    {
        let mut sample = Sample::empty();
        let ghost (v1, c1) = Sample::take_ids(*config, sample@, Cursor::start(buf@));
        let ghost (v2, c2) = Sample::take_payload(*config, v1, c1);
        proof {
            lemma_failed_stays_failed(*config, v1, c1);
            lemma_failed_stays_failed(*config, v2, c2);
        }
        sample.parse_ids(config, buf)?;
        sample.parse_payload(config, buf)?;
        sample.parse_tail(config, buf)?;
        sample.extra = buf.parse_remainder();
        assert(buf@ =~= Seq::<u8>::empty());
        Ok(sample)
    }
}

/// A sample of a counter that selects no field is nothing but extra bytes:
/// every field is absent and `extra` is the whole input.
pub proof fn lemma_sample_no_fields(config: ParseConfig, s: Seq<u8>)
    requires
        config.sample_type.bits == 0,
    ensures
        Sample::spec_parse(config, s) == Some(
            ((SampleView { extra: s, ..Sample::spec_empty() }), Seq::<u8>::empty()),
        ),
{
    assert(forall|f: u64| f != 0 ==> 0u64 & f != f) by (bit_vector);
    reveal(Sample::take_ids);
    reveal(Sample::take_payload);
    reveal(Sample::take_tail);
}

/// A decode that has failed stays failed through the later groups of fields.
proof fn lemma_failed_stays_failed(config: ParseConfig, v: SampleView, c: Cursor)
    ensures
        !c.ok ==> !Sample::take_payload(config, v, c).1.ok,
        !c.ok ==> !Sample::take_tail(config, v, c).1.ok,
{
    reveal(Sample::take_payload);
    reveal(Sample::take_tail);
}

} // verus!
