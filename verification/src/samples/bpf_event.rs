use crate::buffer::{ByteBuffer, ParseError};
use crate::decode::{u16_at, u32_at};
use crate::samples::config::ParseConfig;
use vstd::prelude::*;

verus! {

/// A BPF program was loaded or unloaded (`PERF_RECORD_BPF_EVENT`).
#[derive(Clone, Copy, Debug)]
pub struct BpfEvent {
    pub ty: BpfEventType,
    pub flags: u16,
    pub id: u32,
    pub tag: [u8; 8],
}

/// A [`BpfEvent`] with its tag as a sequence.
pub struct BpfEventView {
    pub ty: BpfEventType,
    pub flags: u16,
    pub id: u32,
    pub tag: Seq<u8>,
}

impl View for BpfEvent {
    type V = BpfEventView;

    open spec fn view(&self) -> BpfEventView {
        BpfEventView { ty: self.ty, flags: self.flags, id: self.id, tag: self.tag@ }
    }
}

/// What happened to the BPF program.
#[derive(Clone, Copy, Debug, PartialEq, Eq, Hash, Structural)]
pub struct BpfEventType(pub u16);

impl BpfEventType {
    pub const UNKNOWN: u16 = 0;

    /// The program was loaded.
    pub const PROG_LOAD: u16 = 1;

    /// The program was unloaded.
    pub const PROG_UNLOAD: u16 = 2;

    /// The tag with the given number. Numbers without a name are kept.
    pub fn new(value: u16) -> (r: Self)
        ensures
            r.0 == value,
    {
        BpfEventType(value)
    }
}

impl BpfEvent {
    /// The record at the front of `s` and the bytes after it, or `None` when
    /// `s` is too short.
    pub open spec fn spec_parse(s: Seq<u8>) -> Option<(BpfEventView, Seq<u8>)> {
        if s.len() >= 16 {
            Some(
                (
                    BpfEventView {
                        ty: BpfEventType(u16_at(s, 0)),
                        flags: u16_at(s, 2),
                        id: u32_at(s, 4),
                        tag: s.subrange(8, 16),
                    },
                    s.skip(16),
                ),
            )
        } else {
            None
        }
    }

    /// Decodes the record at the front of `buf`.
    pub fn parse(config: &ParseConfig, buf: &mut ByteBuffer) -> (r: Result<BpfEvent, ParseError>)
        ensures
            match r {
                Ok(v) => BpfEvent::spec_parse(old(buf)@) == Some((v@, final(buf)@)),
                Err(e) => e == ParseError::Eof && BpfEvent::spec_parse(old(buf)@) is None,
            },
    {
        let ty = BpfEventType::new(buf.parse_u16()?);
        let flags = buf.parse_u16()?;
        let id = buf.parse_u32()?;
        let tag = buf.parse_bytes::<8>()?;
        assert(buf@ =~= old(buf)@.skip(16));
        assert(tag@ =~= old(buf)@.subrange(8, 16));
        Ok(BpfEvent { ty, flags, id, tag })
    }
}

} // verus!
