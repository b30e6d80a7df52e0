use crate::buffer::{ByteBuffer, ParseError};
use crate::decode::{trim_nuls, u32_at, u64_at};
use crate::samples::config::ParseConfig;
use vstd::prelude::*;

verus! {

/// A memory mapping was created, with more detail than [`Mmap`] gives
/// (`PERF_RECORD_MMAP2`).
///
/// [`Mmap`]: crate::samples::mmap::Mmap
#[derive(Clone, Debug)]
pub struct Mmap2 {
    pub pid: u32,
    pub tid: u32,
    pub addr: u64,
    pub len: u64,
    pub pgoff: u64,
    pub maj: u32,
    pub min: u32,
    pub ino: u64,
    pub ino_generation: u64,
    pub prot: u32,
    pub flags: u32,
    /// The file that is mapped.
    pub filename: Vec<u8>,
}

/// A [`Mmap2`] with its bytes as a sequence.
pub struct Mmap2View {
    pub pid: u32,
    pub tid: u32,
    pub addr: u64,
    pub len: u64,
    pub pgoff: u64,
    pub maj: u32,
    pub min: u32,
    pub ino: u64,
    pub ino_generation: u64,
    pub prot: u32,
    pub flags: u32,
    pub filename: Seq<u8>,
}

impl View for Mmap2 {
    type V = Mmap2View;

    open spec fn view(&self) -> Mmap2View {
        Mmap2View {
            pid: self.pid,
            tid: self.tid,
            addr: self.addr,
            len: self.len,
            pgoff: self.pgoff,
            maj: self.maj,
            min: self.min,
            ino: self.ino,
            ino_generation: self.ino_generation,
            prot: self.prot,
            flags: self.flags,
            filename: self.filename@,
        }
    }
}

impl Mmap2 {
    /// The record at the front of `s` and the bytes after it, or `None` when
    /// `s` is too short.
    pub open spec fn spec_parse(s: Seq<u8>) -> Option<(Mmap2View, Seq<u8>)> {
        if s.len() >= 64 {
            Some(
                (
                    Mmap2View {
                        pid: u32_at(s, 0),
                        tid: u32_at(s, 4),
                        addr: u64_at(s, 8),
                        len: u64_at(s, 16),
                        pgoff: u64_at(s, 24),
                        maj: u32_at(s, 32),
                        min: u32_at(s, 36),
                        ino: u64_at(s, 40),
                        ino_generation: u64_at(s, 48),
                        prot: u32_at(s, 56),
                        flags: u32_at(s, 60),
                        filename: trim_nuls(s.skip(64)),
                    },
                    Seq::empty(),
                ),
            )
        } else {
            None
        }
    }

    /// Decodes the record at the front of `buf`.
    ///
    /// The record takes all of `buf`: what follows its fixed fields is the
    /// zero-padded `filename`.
    pub fn parse(config: &ParseConfig, buf: &mut ByteBuffer) -> (r: Result<Mmap2, ParseError>)
        ensures
            match r {
                Ok(v) => Mmap2::spec_parse(old(buf)@) == Some((v@, final(buf)@)),
                Err(e) => e == ParseError::Eof && Mmap2::spec_parse(old(buf)@) is None,
            },
    {
        let pid = buf.parse_u32()?;
        let tid = buf.parse_u32()?;
        let addr = buf.parse_u64()?;
        let len = buf.parse_u64()?;
        let pgoff = buf.parse_u64()?;
        let maj = buf.parse_u32()?;
        let min = buf.parse_u32()?;
        let ino = buf.parse_u64()?;
        let ino_generation = buf.parse_u64()?;
        let prot = buf.parse_u32()?;
        let flags = buf.parse_u32()?;
        assert(buf@ =~= old(buf)@.skip(64));
        let filename = buf.parse_string();
        assert(buf@ =~= Seq::<u8>::empty());
        Ok(Mmap2 { pid, tid, addr, len, pgoff, maj, min, ino, ino_generation, prot, flags, filename })
    }
}

} // verus!
