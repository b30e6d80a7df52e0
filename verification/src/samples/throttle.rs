use crate::buffer::{ByteBuffer, ParseError};
use crate::decode::u64_at;
use crate::samples::config::ParseConfig;
use vstd::prelude::*;

verus! {

/// The kernel paused or resumed a counter that produced too many samples in
/// one timer tick (`PERF_RECORD_THROTTLE`, `PERF_RECORD_UNTHROTTLE`).
#[derive(Clone, Copy, Debug, PartialEq, Eq, Structural)]
pub struct Throttle {
    pub time: u64,
    pub id: u64,
    pub stream_id: u64,
}

impl Throttle {
    /// The record at the front of `s` and the bytes after it, or `None` when
    /// `s` is too short.
    pub open spec fn spec_parse(s: Seq<u8>) -> Option<(Throttle, Seq<u8>)> {
        if s.len() >= 24 {
            Some(
                (
                    Throttle {
                        time: u64_at(s, 0),
                        id: u64_at(s, 8),
                        stream_id: u64_at(s, 16),
                    },
                    s.skip(24),
                ),
            )
        } else {
            None
        }
    }

    /// Decodes the record at the front of `buf`.
    pub fn parse(config: &ParseConfig, buf: &mut ByteBuffer) -> (r: Result<Throttle, ParseError>)
        ensures
            match r {
                Ok(v) => Throttle::spec_parse(old(buf)@) == Some((v, final(buf)@)),
                Err(e) => e == ParseError::Eof && Throttle::spec_parse(old(buf)@) is None,
            },
    {
        let time = buf.parse_u64()?;
        let id = buf.parse_u64()?;
        let stream_id = buf.parse_u64()?;
        assert(buf@ =~= old(buf)@.skip(24));
        Ok(Throttle { time, id, stream_id })
    }
}

} // verus!
