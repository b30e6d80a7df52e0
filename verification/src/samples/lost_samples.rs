use crate::buffer::{ByteBuffer, ParseError};
use crate::decode::u64_at;
use crate::samples::config::ParseConfig;
use vstd::prelude::*;

verus! {

/// Samples were lost while sampling in hardware
/// (`PERF_RECORD_LOST_SAMPLES`).
#[derive(Clone, Copy, Debug, PartialEq, Eq, Structural)]
pub struct LostSamples {
    /// How many samples may have been lost.
    pub lost: u64,
}

impl LostSamples {
    /// The record at the front of `s` and the bytes after it, or `None` when
    /// `s` is too short.
    pub open spec fn spec_parse(s: Seq<u8>) -> Option<(LostSamples, Seq<u8>)> {
        if s.len() >= 8 {
            Some(
                (
                    LostSamples {
                        lost: u64_at(s, 0),
                    },
                    s.skip(8),
                ),
            )
        } else {
            None
        }
    }

    /// Decodes the record at the front of `buf`.
    pub fn parse(config: &ParseConfig, buf: &mut ByteBuffer) -> (r: Result<LostSamples, ParseError>)
        ensures
            match r {
                Ok(v) => LostSamples::spec_parse(old(buf)@) == Some((v, final(buf)@)),
                Err(e) => e == ParseError::Eof && LostSamples::spec_parse(old(buf)@) is None,
            },
    {
        let lost = buf.parse_u64()?;
        assert(buf@ =~= old(buf)@.skip(8));
        Ok(LostSamples { lost })
    }
}

} // verus!
