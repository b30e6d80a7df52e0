use crate::buffer::{ByteBuffer, ParseError};
use crate::decode::{u32_at, u64_at};
use crate::samples::config::ParseConfig;
use vstd::prelude::*;

verus! {

/// A process has exited (`PERF_RECORD_EXIT`).
#[derive(Clone, Copy, Debug, PartialEq, Eq, Structural)]
pub struct Exit {
    pub pid: u32,
    pub ppid: u32,
    pub tid: u32,
    pub ptid: u32,
    pub time: u64,
}

impl Exit {
    /// The record at the front of `s` and the bytes after it, or `None` when
    /// `s` is too short.
    pub open spec fn spec_parse(s: Seq<u8>) -> Option<(Exit, Seq<u8>)> {
        if s.len() >= 24 {
            Some(
                (
                    Exit {
                        pid: u32_at(s, 0),
                        ppid: u32_at(s, 4),
                        tid: u32_at(s, 8),
                        ptid: u32_at(s, 12),
                        time: u64_at(s, 16),
                    },
                    s.skip(24),
                ),
            )
        } else {
            None
        }
    }

    /// Decodes the record at the front of `buf`.
    pub fn parse(config: &ParseConfig, buf: &mut ByteBuffer) -> (r: Result<Exit, ParseError>)
        ensures
            match r {
                Ok(v) => Exit::spec_parse(old(buf)@) == Some((v, final(buf)@)),
                Err(e) => e == ParseError::Eof && Exit::spec_parse(old(buf)@) is None,
            },
    {
        let pid = buf.parse_u32()?;
        let ppid = buf.parse_u32()?;
        let tid = buf.parse_u32()?;
        let ptid = buf.parse_u32()?;
        let time = buf.parse_u64()?;
        assert(buf@ =~= old(buf)@.skip(24));
        Ok(Exit { pid, ppid, tid, ptid, time })
    }
}

} // verus!
