use crate::buffer::{ByteBuffer, ParseError};
use crate::decode::u32_at;
use crate::samples::config::ParseConfig;
use vstd::prelude::*;

verus! {

/// A thread has started an instruction trace (`PERF_RECORD_ITRACE_START`).
#[derive(Clone, Copy, Debug, PartialEq, Eq, Structural)]
pub struct ITraceStart {
    pub pid: u32,
    pub tid: u32,
}

impl ITraceStart {
    /// The record at the front of `s` and the bytes after it, or `None` when
    /// `s` is too short.
    pub open spec fn spec_parse(s: Seq<u8>) -> Option<(ITraceStart, Seq<u8>)> {
        if s.len() >= 8 {
            Some(
                (
                    ITraceStart {
                        pid: u32_at(s, 0),
                        tid: u32_at(s, 4),
                    },
                    s.skip(8),
                ),
            )
        } else {
            None
        }
    }

    /// Decodes the record at the front of `buf`.
    pub fn parse(config: &ParseConfig, buf: &mut ByteBuffer) -> (r: Result<ITraceStart, ParseError>)
        ensures
            match r {
                Ok(v) => ITraceStart::spec_parse(old(buf)@) == Some((v, final(buf)@)),
                Err(e) => e == ParseError::Eof && ITraceStart::spec_parse(old(buf)@) is None,
            },
    {
        let pid = buf.parse_u32()?;
        let tid = buf.parse_u32()?;
        assert(buf@ =~= old(buf)@.skip(8));
        Ok(ITraceStart { pid, tid })
    }
}

} // verus!
