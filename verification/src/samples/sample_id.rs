//! The block that identifies the source of a record.

use crate::buffer::{ByteBuffer, ParseError};
use crate::decode::{lemma_field_fixed, take_u32, take_u64, Cursor};
use crate::samples::bits::SampleType;
use crate::samples::config::ParseConfig;
use vstd::prelude::*;

verus! {

/// Where and when a record was produced.
///
/// A counter with `sample_id_all` set appends this block to every record
/// but `Mmap` and `Sample` records. It holds those of the sample fields
/// below that the counter has selected.
#[derive(Clone, Copy, Debug, PartialEq, Eq, Structural)]
pub struct SampleId {
    /// The process that produced the record.
    pub pid: Option<u32>,
    /// The thread that produced the record.
    pub tid: Option<u32>,
    /// When the record was produced.
    pub time: Option<u64>,
    /// The id of the counter, or of its group leader.
    pub id: Option<u64>,
    /// The id of the counter itself, also when it belongs to a group.
    pub stream_id: Option<u64>,
    /// The CPU on which the record was produced.
    pub cpu: Option<u32>,
}

impl SampleId {
    /// The block without any field.
    pub open spec fn spec_empty() -> SampleId {
        SampleId { pid: None, tid: None, time: None, id: None, stream_id: None, cpu: None }
    }

    /// The block without any field.
    pub fn empty() -> (r: SampleId)
        ensures
            r == SampleId::spec_empty(),
    {
        SampleId { pid: None, tid: None, time: None, id: None, stream_id: None, cpu: None }
    }

    /// 8 where the sample type has all bits of `flag`, else 0.
    pub open spec fn slot(config: ParseConfig, flag: u64) -> nat {
        if config.sample_type.contains(flag) {
            8
        } else {
            0
        }
    }

    /// How many bytes the block takes under `config`: 8 for each of the six
    /// fields that the sample type selects, nothing without `sample_id_all`.
    pub open spec fn spec_expected_size(config: ParseConfig) -> nat {
        if !config.sample_id_all {
            0
        } else {
            SampleId::slot(config, SampleType::TID) + SampleId::slot(config, SampleType::TIME)
                + SampleId::slot(config, SampleType::ID) + SampleId::slot(
                config,
                SampleType::STREAM_ID,
            ) + SampleId::slot(config, SampleType::CPU) + SampleId::slot(
                config,
                SampleType::IDENTIFIER,
            )
        }
    }

    /// How many bytes the block takes under `config`.
    pub fn expected_size(config: &ParseConfig) -> (n: usize)
        ensures
            n == SampleId::spec_expected_size(*config),
    {
        if !config.sample_id_all {
            return 0;
        }
        let sty = config.sample_type;
        let mut n: usize = 0;
        if sty.contains(SampleType::TID) {
            n += 8;
        }
        if sty.contains(SampleType::TIME) {
            n += 8;
        }
        if sty.contains(SampleType::ID) {
            n += 8;
        }
        if sty.contains(SampleType::STREAM_ID) {
            n += 8;
        }
        if sty.contains(SampleType::CPU) {
            n += 8;
        }
        if sty.contains(SampleType::IDENTIFIER) {
            n += 8;
        }
        n
    }

    /// The block at the front of `s` and the bytes after it.
    ///
    /// The fields come in this order, each only where the sample type
    /// selects it: process and thread id, time, id, stream id, CPU with four
    /// reserved bytes, identifier. The identifier, where present, is the id.
    #[verifier::opaque]
    pub open spec fn spec_parse(config: ParseConfig, s: Seq<u8>) -> Option<(SampleId, Seq<u8>)> {
        if !config.sample_id_all {
            Some((SampleId::spec_empty(), s))
        } else {
            let sty = config.sample_type;
            let c = Cursor::start(s);
            let (pid, c) = c.field(sty.contains(SampleType::TID), take_u32(c.rest));
            let (tid, c) = c.field(sty.contains(SampleType::TID), take_u32(c.rest));
            let (time, c) = c.field(sty.contains(SampleType::TIME), take_u64(c.rest));
            let (id, c) = c.field(sty.contains(SampleType::ID), take_u64(c.rest));
            let (stream_id, c) = c.field(sty.contains(SampleType::STREAM_ID), take_u64(c.rest));
            let (cpu, c) = c.field(sty.contains(SampleType::CPU), take_u32(c.rest));
            let (reserved, c) = c.field(sty.contains(SampleType::CPU), take_u32(c.rest));
            let (identifier, c) = c.field(sty.contains(SampleType::IDENTIFIER), take_u64(c.rest));
            if c.ok {
                Some(
                    (
                        SampleId {
                            pid,
                            tid,
                            time,
                            id: if identifier is Some {
                                identifier
                            } else {
                                id
                            },
                            stream_id,
                            cpu,
                        },
                        c.rest,
                    ),
                )
            } else {
                None
            }
        }
    }

    /// Decodes the block at the front of `buf`.
    pub fn parse(config: &ParseConfig, buf: &mut ByteBuffer) -> (r: Result<SampleId, ParseError>)
        ensures
            match r {
                Ok(v) => SampleId::spec_parse(*config, old(buf)@) == Some((v, final(buf)@)),
                Err(e) => e == ParseError::Eof && SampleId::spec_parse(*config, old(buf)@)
                    is None,
            },
    {
        reveal(SampleId::spec_parse);
        let mut sample = SampleId::empty();
        if !config.sample_id_all {
            return Ok(sample);
        }
        let sty = config.sample_type;
        if sty.contains(SampleType::TID) {
            sample.pid = Some(buf.parse_u32()?);
            sample.tid = Some(buf.parse_u32()?);
        }
        if sty.contains(SampleType::TIME) {
            sample.time = Some(buf.parse_u64()?);
        }
        if sty.contains(SampleType::ID) {
            sample.id = Some(buf.parse_u64()?);
        }
        if sty.contains(SampleType::STREAM_ID) {
            sample.stream_id = Some(buf.parse_u64()?);
        }
        if sty.contains(SampleType::CPU) {
            sample.cpu = Some(buf.parse_u32()?);
            let _ = buf.parse_u32()?;
        }
        if sty.contains(SampleType::IDENTIFIER) {
            sample.id = Some(buf.parse_u64()?);
        }
        Ok(sample)
    }
}

/// The block takes exactly its expected size: decoding succeeds on every
/// input of at least that many bytes, fails on every shorter one, and
/// leaves what follows those bytes.
pub proof fn lemma_sample_id_size(config: ParseConfig, s: Seq<u8>)
    ensures
        SampleId::spec_parse(config, s) is Some <==> s.len() >= SampleId::spec_expected_size(
            config,
        ),
        SampleId::spec_parse(config, s) matches Some((_, rest)) ==> rest == s.skip(
            SampleId::spec_expected_size(config) as int,
        ),
{
    reveal(SampleId::spec_parse);
    if config.sample_id_all {
        let sty = config.sample_type;
        let c0 = Cursor::start(s);
        let (pid, c1) = c0.field(sty.contains(SampleType::TID), take_u32(c0.rest));
        let (tid, c2) = c1.field(sty.contains(SampleType::TID), take_u32(c1.rest));
        let (time, c3) = c2.field(sty.contains(SampleType::TIME), take_u64(c2.rest));
        let (id, c4) = c3.field(sty.contains(SampleType::ID), take_u64(c3.rest));
        let (stream_id, c5) = c4.field(sty.contains(SampleType::STREAM_ID), take_u64(c4.rest));
        let (cpu, c6) = c5.field(sty.contains(SampleType::CPU), take_u32(c5.rest));
        let (reserved, c7) = c6.field(sty.contains(SampleType::CPU), take_u32(c6.rest));
        let (identifier, c8) = c7.field(sty.contains(SampleType::IDENTIFIER), take_u64(c7.rest));
        let n1: int = if sty.contains(SampleType::TID) {
            4
        } else {
            0
        };
        let n2 = SampleId::slot(config, SampleType::TID) as int;
        let n3 = n2 + SampleId::slot(config, SampleType::TIME);
        let n4 = n3 + SampleId::slot(config, SampleType::ID);
        let n5 = n4 + SampleId::slot(config, SampleType::STREAM_ID);
        let n6: int = if sty.contains(SampleType::CPU) {
            n5 + 4
        } else {
            n5
        };
        let n7 = n5 + SampleId::slot(config, SampleType::CPU);
        assert(s.skip(0) =~= s);
        lemma_field_fixed(c0, sty.contains(SampleType::TID), take_u32(c0.rest), s, 0, 4);
        lemma_field_fixed(c1, sty.contains(SampleType::TID), take_u32(c1.rest), s, n1, 4);
        lemma_field_fixed(c2, sty.contains(SampleType::TIME), take_u64(c2.rest), s, n2, 8);
        lemma_field_fixed(c3, sty.contains(SampleType::ID), take_u64(c3.rest), s, n3, 8);
        lemma_field_fixed(c4, sty.contains(SampleType::STREAM_ID), take_u64(c4.rest), s, n4, 8);
        lemma_field_fixed(c5, sty.contains(SampleType::CPU), take_u32(c5.rest), s, n5, 4);
        lemma_field_fixed(c6, sty.contains(SampleType::CPU), take_u32(c6.rest), s, n6, 4);
        lemma_field_fixed(c7, sty.contains(SampleType::IDENTIFIER), take_u64(c7.rest), s, n7, 8);
    } else {
        assert(s.skip(0) =~= s);
    }
}

} // verus!
