use crate::buffer::{ByteBuffer, ParseError};
use crate::decode::{u32_at, u64_at};
use crate::samples::config::ParseConfig;
use vstd::prelude::*;

verus! {

/// A process has forked (`PERF_RECORD_FORK`).
#[derive(Clone, Copy, Debug, PartialEq, Eq, Structural)]
pub struct Fork {
    pub pid: u32,
    pub ppid: u32,
    pub tid: u32,
    pub ptid: u32,
    pub time: u64,
}

impl Fork {
    /// The record at the front of `s` and the bytes after it, or `None` when
    /// `s` is too short.
    pub open spec fn spec_parse(s: Seq<u8>) -> Option<(Fork, Seq<u8>)> {
        if s.len() >= 24 {
            Some(
                (
                    Fork {
                        pid: u32_at(s, 0),
                        ppid: u32_at(s, 4),
                        tid: u32_at(s, 8),
                        ptid: u32_at(s, 12),
                        time: u64_at(s, 16),
                    },
                    s.skip(24),
                ),
            )
        } else {
            None
        }
    }

    /// Decodes the record at the front of `buf`.
    pub fn parse(config: &ParseConfig, buf: &mut ByteBuffer) -> (r: Result<Fork, ParseError>)
        ensures
            match r {
                Ok(v) => Fork::spec_parse(old(buf)@) == Some((v, final(buf)@)),
                Err(e) => e == ParseError::Eof && Fork::spec_parse(old(buf)@) is None,
            },
    {
        let pid = buf.parse_u32()?;
        let ppid = buf.parse_u32()?;
        let tid = buf.parse_u32()?;
        let ptid = buf.parse_u32()?;
        let time = buf.parse_u64()?;
        assert(buf@ =~= old(buf)@.skip(24));
        Ok(Fork { pid, ppid, tid, ptid, time })
    }
}

} // verus!
