use crate::buffer::{ByteBuffer, ParseError};
use crate::decode::{trim_nuls, u32_at, u64_at};
use crate::samples::config::ParseConfig;
use vstd::prelude::*;

verus! {

/// A memory mapping was created (`PERF_RECORD_MMAP`).
#[derive(Clone, Debug)]
pub struct Mmap {
    pub pid: u32,
    pub tid: u32,
    pub addr: u64,
    pub len: u64,
    pub pgoff: u64,
    /// The file that is mapped.
    pub filename: Vec<u8>,
}

/// A [`Mmap`] with its bytes as a sequence.
pub struct MmapView {
    pub pid: u32,
    pub tid: u32,
    pub addr: u64,
    pub len: u64,
    pub pgoff: u64,
    pub filename: Seq<u8>,
}

impl View for Mmap {
    type V = MmapView;

    open spec fn view(&self) -> MmapView {
        MmapView {
            pid: self.pid,
            tid: self.tid,
            addr: self.addr,
            len: self.len,
            pgoff: self.pgoff,
            filename: self.filename@,
        }
    }
}

impl Mmap {
    /// The record at the front of `s` and the bytes after it, or `None` when
    /// `s` is too short.
    pub open spec fn spec_parse(s: Seq<u8>) -> Option<(MmapView, Seq<u8>)> {
        if s.len() >= 32 {
            Some(
                (
                    MmapView {
                        pid: u32_at(s, 0),
                        tid: u32_at(s, 4),
                        addr: u64_at(s, 8),
                        len: u64_at(s, 16),
                        pgoff: u64_at(s, 24),
                        filename: trim_nuls(s.skip(32)),
                    },
                    Seq::empty(),
                ),
            )
        } else {
            None
        }
    }

    /// Decodes the record at the front of `buf`.
    ///
    /// The record takes all of `buf`: what follows its fixed fields is the
    /// zero-padded `filename`.
    pub fn parse(config: &ParseConfig, buf: &mut ByteBuffer) -> (r: Result<Mmap, ParseError>)
        ensures
            match r {
                Ok(v) => Mmap::spec_parse(old(buf)@) == Some((v@, final(buf)@)),
                Err(e) => e == ParseError::Eof && Mmap::spec_parse(old(buf)@) is None,
            },
    {
        let pid = buf.parse_u32()?;
        let tid = buf.parse_u32()?;
        let addr = buf.parse_u64()?;
        let len = buf.parse_u64()?;
        let pgoff = buf.parse_u64()?;
        assert(buf@ =~= old(buf)@.skip(32));
        let filename = buf.parse_string();
        assert(buf@ =~= Seq::<u8>::empty());
        Ok(Mmap { pid, tid, addr, len, pgoff, filename })
    }
}

} // verus!
