use crate::buffer::{ByteBuffer, ParseError};
use crate::decode::u64_at;
use crate::samples::config::ParseConfig;
use vstd::prelude::*;

verus! {

/// The kernel dropped events because the ring buffer was full
/// (`PERF_RECORD_LOST`).
#[derive(Clone, Copy, Debug, PartialEq, Eq, Structural)]
pub struct Lost {
    /// The id of the counter whose events were lost.
    pub id: u64,
    /// How many events were lost.
    pub lost: u64,
}

impl Lost {
    /// The record at the front of `s` and the bytes after it, or `None` when
    /// `s` is too short.
    pub open spec fn spec_parse(s: Seq<u8>) -> Option<(Lost, Seq<u8>)> {
        if s.len() >= 16 {
            Some(
                (
                    Lost {
                        id: u64_at(s, 0),
                        lost: u64_at(s, 8),
                    },
                    s.skip(16),
                ),
            )
        } else {
            None
        }
    }

    /// Decodes the record at the front of `buf`.
    pub fn parse(config: &ParseConfig, buf: &mut ByteBuffer) -> (r: Result<Lost, ParseError>)
        ensures
            match r {
                Ok(v) => Lost::spec_parse(old(buf)@) == Some((v, final(buf)@)),
                Err(e) => e == ParseError::Eof && Lost::spec_parse(old(buf)@) is None,
            },
    {
        let id = buf.parse_u64()?;
        let lost = buf.parse_u64()?;
        assert(buf@ =~= old(buf)@.skip(16));
        Ok(Lost { id, lost })
    }
}

} // verus!
