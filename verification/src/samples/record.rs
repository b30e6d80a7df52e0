//! A whole record: its kind, its payload and the block that identifies its
//! source.

use crate::buffer::{ByteBuffer, ParseError};
use crate::decode::{u16_at, u32_at};
use crate::samples::aux::Aux;
use crate::samples::bits::{RecordMiscFlags, RecordType};
use crate::samples::bpf_event::{BpfEvent, BpfEventView};
use crate::samples::cgroup::{Cgroup, CgroupView};
use crate::samples::comm::{Comm, CommView};
use crate::samples::config::ParseConfig;
use crate::samples::exit::Exit;
use crate::samples::fork::Fork;
use crate::samples::itrace_start::ITraceStart;
use crate::samples::ksymbol::{KSymbol, KSymbolView};
use crate::samples::lost::Lost;
use crate::samples::lost_samples::LostSamples;
use crate::samples::mmap::{Mmap, MmapView};
use crate::samples::mmap2::{Mmap2, Mmap2View};
use crate::samples::namespaces::{Namespaces, NamespacesView};
use crate::samples::read::{Read, ReadView};
use crate::samples::sample::{Sample, SampleView};
use crate::samples::sample_id::{lemma_sample_id_size, SampleId};
use crate::samples::switch_cpu_wide::SwitchCpuWide;
use crate::samples::text_poke::{TextPoke, TextPokeView};
use crate::samples::throttle::Throttle;
use vstd::prelude::*;

verus! {

/// The fixed header that every record starts with.
#[derive(Clone, Copy, Debug, PartialEq, Eq, Structural)]
pub struct RecordHeader {
    /// The kind of the record.
    pub type_: u32,
    /// Flags of the record.
    pub misc: u16,
    /// The length of the whole record in bytes, header included.
    pub size: u16,
}

impl RecordHeader {
    /// How many bytes a header takes.
    pub const SIZE: usize = 8;

    /// The header at the front of `s` and the bytes after it.
    pub open spec fn spec_parse(s: Seq<u8>) -> Option<(RecordHeader, Seq<u8>)> {
        if s.len() >= 8 {
            Some(
                (
                    RecordHeader { type_: u32_at(s, 0), misc: u16_at(s, 4), size: u16_at(s, 6) },
                    s.skip(8),
                ),
            )
        } else {
            None
        }
    }
}

impl<'a> ByteBuffer<'a> {
    /// Reads a record header, field by field, and advances past it.
    pub fn parse_header(&mut self) -> (r: Result<RecordHeader, ParseError>)
        ensures
            match r {
                Ok(v) => RecordHeader::spec_parse(old(self)@) == Some((v, final(self)@)),
                Err(e) => e == ParseError::Eof && RecordHeader::spec_parse(old(self)@) is None,
            },
    {
        let type_ = self.parse_u32()?;
        let misc = self.parse_u16()?;
        let size = self.parse_u16()?;
        assert(self@ =~= old(self)@.skip(8));
        Ok(RecordHeader { type_, misc, size })
    }
}

/// The payload of a record, by kind.
#[derive(Clone, Debug)]
pub enum RecordEvent {
    /// A memory mapping was created.
    Mmap(Mmap),
    /// The kernel dropped events.
    Lost(Lost),
    /// The name of a process changed.
    Comm(Comm),
    /// A process exited.
    Exit(Exit),
    /// A process forked.
    Fork(Fork),
    /// The kernel paused a counter that produced too many samples.
    Throttle(Throttle),
    /// The kernel resumed a counter that it had paused.
    Unthrottle(Throttle),
    /// The kernel read the counters on its own.
    Read(Read),
    /// A sample.
    Sample(Sample),
    /// A memory mapping was created; with more detail.
    Mmap2(Mmap2),
    /// New data is in the aux buffer.
    Aux(Aux),
    /// A thread started an instruction trace.
    ITraceStart(ITraceStart),
    /// Samples were lost while sampling in hardware.
    LostSamples(LostSamples),
    /// A context switch; the `SWITCH_OUT` flag of the record tells its
    /// direction.
    Switch,
    /// A context switch seen while profiling a whole CPU.
    SwitchCpuWide(SwitchCpuWide),
    /// The namespaces of a process.
    Namespaces(Namespaces),
    /// A kernel symbol was registered or unregistered.
    KSymbol(KSymbol),
    /// A BPF program was loaded or unloaded.
    BpfEvent(BpfEvent),
    /// A cgroup was created.
    Cgroup(Cgroup),
    /// The text of the kernel was changed.
    TextPoke(TextPoke),
    /// A record of a kind that this library does not decode: its bytes.
    Unknown(Vec<u8>),
}

/// A [`RecordEvent`] with the payload as a view.
pub enum RecordEventView {
    Mmap(MmapView),
    Lost(Lost),
    Comm(CommView),
    Exit(Exit),
    Fork(Fork),
    Throttle(Throttle),
    Unthrottle(Throttle),
    Read(ReadView),
    Sample(SampleView),
    Mmap2(Mmap2View),
    Aux(Aux),
    ITraceStart(ITraceStart),
    LostSamples(LostSamples),
    Switch,
    SwitchCpuWide(SwitchCpuWide),
    Namespaces(NamespacesView),
    KSymbol(KSymbolView),
    BpfEvent(BpfEventView),
    Cgroup(CgroupView),
    TextPoke(TextPokeView),
    Unknown(Seq<u8>),
}

impl View for RecordEvent {
    type V = RecordEventView;

    open spec fn view(&self) -> RecordEventView {
        match *self {
            RecordEvent::Mmap(v) => RecordEventView::Mmap(v@),
            RecordEvent::Lost(v) => RecordEventView::Lost(v),
            RecordEvent::Comm(v) => RecordEventView::Comm(v@),
            RecordEvent::Exit(v) => RecordEventView::Exit(v),
            RecordEvent::Fork(v) => RecordEventView::Fork(v),
            RecordEvent::Throttle(v) => RecordEventView::Throttle(v),
            RecordEvent::Unthrottle(v) => RecordEventView::Unthrottle(v),
            RecordEvent::Read(v) => RecordEventView::Read(v@),
            RecordEvent::Sample(v) => RecordEventView::Sample(v@),
            RecordEvent::Mmap2(v) => RecordEventView::Mmap2(v@),
            RecordEvent::Aux(v) => RecordEventView::Aux(v),
            RecordEvent::ITraceStart(v) => RecordEventView::ITraceStart(v),
            RecordEvent::LostSamples(v) => RecordEventView::LostSamples(v),
            RecordEvent::Switch => RecordEventView::Switch,
            RecordEvent::SwitchCpuWide(v) => RecordEventView::SwitchCpuWide(v),
            RecordEvent::Namespaces(v) => RecordEventView::Namespaces(v@),
            RecordEvent::KSymbol(v) => RecordEventView::KSymbol(v@),
            RecordEvent::BpfEvent(v) => RecordEventView::BpfEvent(v@),
            RecordEvent::Cgroup(v) => RecordEventView::Cgroup(v@),
            RecordEvent::TextPoke(v) => RecordEventView::TextPoke(v@),
            RecordEvent::Unknown(v) => RecordEventView::Unknown(v@),
        }
    }
}

impl RecordEvent {
    /// The payload that `s` holds for a record with the given header.
    ///
    /// The kind of the record selects the decoder. Bytes that the decoder
    /// leaves are skipped. A kind without a decoder gives `Unknown` with all
    /// of `s`, so newer kinds of record never fail.
    #[verifier::opaque]
    pub open spec fn spec_parse(config: ParseConfig, header: RecordHeader, s: Seq<u8>) -> Option<
        RecordEventView,
    > {
        let ty = header.type_;
        if ty == RecordType::MMAP {
            match Mmap::spec_parse(s) {
                Some((v, _)) => Some(RecordEventView::Mmap(v)),
                None => None,
            }
        } else if ty == RecordType::LOST {
            match Lost::spec_parse(s) {
                Some((v, _)) => Some(RecordEventView::Lost(v)),
                None => None,
            }
        } else if ty == RecordType::COMM {
            match Comm::spec_parse(s) {
                Some((v, _)) => Some(RecordEventView::Comm(v)),
                None => None,
            }
        } else if ty == RecordType::EXIT {
            match Exit::spec_parse(s) {
                Some((v, _)) => Some(RecordEventView::Exit(v)),
                None => None,
            }
        } else if ty == RecordType::THROTTLE {
            match Throttle::spec_parse(s) {
                Some((v, _)) => Some(RecordEventView::Throttle(v)),
                None => None,
            }
        } else if ty == RecordType::UNTHROTTLE {
            match Throttle::spec_parse(s) {
                Some((v, _)) => Some(RecordEventView::Unthrottle(v)),
                None => None,
            }
        } else if ty == RecordType::FORK {
            match Fork::spec_parse(s) {
                Some((v, _)) => Some(RecordEventView::Fork(v)),
                None => None,
            }
        } else if ty == RecordType::READ {
            match Read::spec_parse(config, s) {
                Some((v, _)) => Some(RecordEventView::Read(v)),
                None => None,
            }
        } else if ty == RecordType::SAMPLE {
            match Sample::spec_parse(config, s) {
                Some((v, _)) => Some(RecordEventView::Sample(v)),
                None => None,
            }
        } else if ty == RecordType::MMAP2 {
            match Mmap2::spec_parse(s) {
                Some((v, _)) => Some(RecordEventView::Mmap2(v)),
                None => None,
            }
        } else if ty == RecordType::AUX {
            match Aux::spec_parse(s) {
                Some((v, _)) => Some(RecordEventView::Aux(v)),
                None => None,
            }
        } else if ty == RecordType::ITRACE_START {
            match ITraceStart::spec_parse(s) {
                Some((v, _)) => Some(RecordEventView::ITraceStart(v)),
                None => None,
            }
        } else if ty == RecordType::LOST_SAMPLES {
            match LostSamples::spec_parse(s) {
                Some((v, _)) => Some(RecordEventView::LostSamples(v)),
                None => None,
            }
        } else if ty == RecordType::SWITCH {
            Some(RecordEventView::Switch)
        } else if ty == RecordType::SWITCH_CPU_WIDE {
            match SwitchCpuWide::spec_parse(RecordMiscFlags { bits: header.misc }, s) {
                Some((v, _)) => Some(RecordEventView::SwitchCpuWide(v)),
                None => None,
            }
        } else if ty == RecordType::NAMESPACES {
            match Namespaces::spec_parse(s) {
                Some((v, _)) => Some(RecordEventView::Namespaces(v)),
                None => None,
            }
        } else if ty == RecordType::KSYMBOL {
            match KSymbol::spec_parse(s) {
                Some((v, _)) => Some(RecordEventView::KSymbol(v)),
                None => None,
            }
        } else if ty == RecordType::BPF_EVENT {
            match BpfEvent::spec_parse(s) {
                Some((v, _)) => Some(RecordEventView::BpfEvent(v)),
                None => None,
            }
        } else if ty == RecordType::CGROUP {
            match Cgroup::spec_parse(s) {
                Some((v, _)) => Some(RecordEventView::Cgroup(v)),
                None => None,
            }
        } else if ty == RecordType::TEXT_POKE {
            match TextPoke::spec_parse(s) {
                Some((v, _)) => Some(RecordEventView::TextPoke(v)),
                None => None,
            }
        } else {
            Some(RecordEventView::Unknown(s))
        }
    }

    /// Decodes the payload of a record with the given header. `buf` holds
    /// the payload and nothing else.
    pub fn parse(config: &ParseConfig, header: &RecordHeader, buf: &mut ByteBuffer) -> (r: Result<
        RecordEvent,
        ParseError,
    >)
        ensures
            match r {
                Ok(v) => RecordEvent::spec_parse(*config, *header, old(buf)@) == Some(v@),
                Err(e) => e == ParseError::Eof && RecordEvent::spec_parse(
                    *config,
                    *header,
                    old(buf)@,
                ) is None,
            },
    {
        reveal(RecordEvent::spec_parse);
        let ty = header.type_;
        if ty == RecordType::MMAP {
            Ok(RecordEvent::Mmap(Mmap::parse(config, buf)?))
        } else if ty == RecordType::LOST {
            Ok(RecordEvent::Lost(Lost::parse(config, buf)?))
        } else if ty == RecordType::COMM {
            Ok(RecordEvent::Comm(Comm::parse(config, buf)?))
        } else if ty == RecordType::EXIT {
            Ok(RecordEvent::Exit(Exit::parse(config, buf)?))
        } else if ty == RecordType::THROTTLE {
            Ok(RecordEvent::Throttle(Throttle::parse(config, buf)?))
        } else if ty == RecordType::UNTHROTTLE {
            Ok(RecordEvent::Unthrottle(Throttle::parse(config, buf)?))
        } else if ty == RecordType::FORK {
            Ok(RecordEvent::Fork(Fork::parse(config, buf)?))
        } else if ty == RecordType::READ {
            Ok(RecordEvent::Read(Read::parse(config, buf)?))
        } else if ty == RecordType::SAMPLE {
            Ok(RecordEvent::Sample(Sample::parse(config, buf)?))
        } else if ty == RecordType::MMAP2 {
            Ok(RecordEvent::Mmap2(Mmap2::parse(config, buf)?))
        } else if ty == RecordType::AUX {
            Ok(RecordEvent::Aux(Aux::parse(config, buf)?))
        } else if ty == RecordType::ITRACE_START {
            Ok(RecordEvent::ITraceStart(ITraceStart::parse(config, buf)?))
        } else if ty == RecordType::LOST_SAMPLES {
            Ok(RecordEvent::LostSamples(LostSamples::parse(config, buf)?))
        } else if ty == RecordType::SWITCH {
            Ok(RecordEvent::Switch)
        } else if ty == RecordType::SWITCH_CPU_WIDE {
            Ok(
                RecordEvent::SwitchCpuWide(
                    SwitchCpuWide::parse(RecordMiscFlags::new(header.misc), buf)?,
                ),
            )
        } else if ty == RecordType::NAMESPACES {
            Ok(RecordEvent::Namespaces(Namespaces::parse(config, buf)?))
        } else if ty == RecordType::KSYMBOL {
            Ok(RecordEvent::KSymbol(KSymbol::parse(config, buf)?))
        } else if ty == RecordType::BPF_EVENT {
            Ok(RecordEvent::BpfEvent(BpfEvent::parse(config, buf)?))
        } else if ty == RecordType::CGROUP {
            Ok(RecordEvent::Cgroup(Cgroup::parse(config, buf)?))
        } else if ty == RecordType::TEXT_POKE {
            Ok(RecordEvent::TextPoke(TextPoke::parse(config, buf)?))
        } else {
            Ok(RecordEvent::Unknown(buf.parse_remainder()))
        }
    }
}

/// A decoded record.
#[derive(Clone, Debug)]
pub struct Record {
    /// The kind of the record as the kernel gave it, also where the payload
    /// is `Unknown`.
    pub ty: RecordType,
    /// Flags of the record.
    pub misc: RecordMiscFlags,
    /// The payload.
    pub event: RecordEvent,
    /// Where and when the record was produced, as far as it says.
    pub sample_id: SampleId,
}

/// A [`Record`] with the payload as a view.
pub struct RecordView {
    pub ty: RecordType,
    pub misc: RecordMiscFlags,
    pub event: RecordEventView,
    pub sample_id: SampleId,
}

impl View for Record {
    type V = RecordView;

    open spec fn view(&self) -> RecordView {
        RecordView { ty: self.ty, misc: self.misc, event: self.event@, sample_id: self.sample_id }
    }
}

impl SampleId {
    /// What a sample says of its source.
    pub open spec fn spec_from_sample(sample: SampleView) -> SampleId {
        SampleId {
            pid: sample.pid,
            tid: sample.tid,
            time: sample.time,
            id: sample.id,
            stream_id: sample.stream_id,
            cpu: sample.cpu,
        }
    }

    /// What a sample says of its source.
    pub fn from_sample(sample: &Sample) -> (r: SampleId)
        ensures
            r == SampleId::spec_from_sample(sample@),
    {
        SampleId {
            pid: sample.pid,
            tid: sample.tid,
            time: sample.time,
            id: sample.id,
            stream_id: sample.stream_id,
            cpu: sample.cpu,
        }
    }

    /// What the payload of a record without an identifying block says of
    /// its source: a memory mapping names its process and thread, a sample
    /// holds all of the fields itself.
    pub open spec fn spec_from_event(event: RecordEventView) -> SampleId {
        match event {
            RecordEventView::Mmap(mmap) => SampleId {
                pid: Some(mmap.pid),
                tid: Some(mmap.tid),
                ..SampleId::spec_empty()
            },
            RecordEventView::Sample(sample) => SampleId::spec_from_sample(sample),
            _ => SampleId::spec_empty(),
        }
    }

    /// What the payload of a record without an identifying block says of
    /// its source.
    pub fn from_event(event: &RecordEvent) -> (r: SampleId)
        ensures
            r == SampleId::spec_from_event(event@),
    {
        match event {
            RecordEvent::Mmap(mmap) => SampleId {
                pid: Some(mmap.pid),
                tid: Some(mmap.tid),
                time: None,
                id: None,
                stream_id: None,
                cpu: None,
            },
            RecordEvent::Sample(sample) => SampleId::from_sample(sample),
            _ => SampleId::empty(),
        }
    }
}

impl Record {
    /// Whether records of this kind end in an identifying block where the
    /// counter has `sample_id_all` set. `Mmap` and `Sample` records do not.
    pub open spec fn has_trailer(header: RecordHeader) -> bool {
        header.type_ != RecordType::MMAP && header.type_ != RecordType::SAMPLE
    }

    /// How many bytes at the end of such a record are its identifying
    /// block.
    pub open spec fn trailer_len(config: ParseConfig, header: RecordHeader) -> nat {
        if Record::has_trailer(header) {
            SampleId::spec_expected_size(config)
        } else {
            0
        }
    }

    /// The record that `s`, all the bytes after the header, holds.
    ///
    /// The last `trailer_len` bytes are the identifying block and what comes
    /// before them is the payload. A record without such a block is
    /// identified by what its payload says.
    pub open spec fn spec_parse(config: ParseConfig, header: RecordHeader, s: Seq<u8>) -> Option<
        RecordView,
    > {
        let n = Record::trailer_len(config, header);
        if s.len() < n {
            None
        } else {
            let body = s.take(s.len() - n);
            let trailer = s.skip(s.len() - n);
            match RecordEvent::spec_parse(config, header, body) {
                None => None,
                Some(event) => Some(
                    RecordView {
                        ty: RecordType(header.type_),
                        misc: RecordMiscFlags { bits: header.misc },
                        event,
                        sample_id: if Record::has_trailer(header) {
                            SampleId::spec_parse(config, trailer).unwrap().0
                        } else {
                            SampleId::spec_from_event(event)
                        },
                    },
                ),
            }
        }
    }

    /// Decodes the record whose bytes after the header are `buf`.
    ///
    /// On success every byte of `buf` has been consumed.
    pub fn parse(config: &ParseConfig, header: &RecordHeader, buf: &mut ByteBuffer) -> (r: Result<
        Record,
        ParseError,
    >)
        ensures
            match r {
                Ok(v) => Record::spec_parse(*config, *header, old(buf)@) == Some(v@),
                Err(e) => e == ParseError::Eof && Record::spec_parse(*config, *header, old(buf)@)
                    is None,
            },
            r is Ok ==> final(buf)@.len() == 0,
    {
        let has_trailer = header.type_ != RecordType::MMAP && header.type_ != RecordType::SAMPLE;
        let trailer_len = if has_trailer {
            SampleId::expected_size(config)
        } else {
            0
        };
        if !buf.has(trailer_len) {
            return Err(ParseError::Eof);
        }
        let (mut limited, mut trailer) = buf.split_back(trailer_len);
        let event = RecordEvent::parse(config, header, &mut limited)?;
        let sample_id = if has_trailer {
            proof {
                lemma_sample_id_size(*config, trailer@);
            }
            SampleId::parse(config, &mut trailer)?
        } else {
            SampleId::from_event(&event)
        };
        *buf = trailer;
        Ok(
            Record {
                ty: RecordType::new(header.type_),
                misc: RecordMiscFlags::new(header.misc),
                event,
                sample_id,
            },
        )
    }
}

/// Decoding sees the bytes of a buffer and not how they are split: a buffer
/// of two spans that are `bytes` cut at any index `k` has the same view as a
/// single span over `bytes`, and so every decoder gives the same result on
/// both.
pub proof fn lemma_split_equivalence(
    config: ParseConfig,
    header: RecordHeader,
    bytes: Seq<u8>,
    k: int,
    single: ByteBuffer,
    split: ByteBuffer,
)
    requires
        0 <= k <= bytes.len(),
        single matches ByteBuffer::Single(whole) && whole@ == bytes,
        split matches ByteBuffer::Split(parts) && parts[0]@ == bytes.take(k) && parts[1]@
            == bytes.skip(k),
    ensures
        split@ == single@,
        Record::spec_parse(config, header, split@) == Record::spec_parse(config, header, single@),
        RecordEvent::spec_parse(config, header, split@) == RecordEvent::spec_parse(
            config,
            header,
            single@,
        ),
        Sample::spec_parse(config, split@) == Sample::spec_parse(config, single@),
        RecordHeader::spec_parse(split@) == RecordHeader::spec_parse(single@),
{
    assert(split@ =~= single@);
}

} // verus!
