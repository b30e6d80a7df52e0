use crate::buffer::{ByteBuffer, ParseError};
use crate::decode::u64_at;
use crate::samples::config::ParseConfig;
use vstd::prelude::*;

verus! {

/// Ties data written to the aux area to a hardware id of the architecture
/// (`PERF_RECORD_AUX_OUTPUT_HW_ID`).
#[derive(Clone, Copy, Debug, PartialEq, Eq, Structural)]
pub struct AuxOutputHwId {
    pub hw_id: u64,
}

impl AuxOutputHwId {
    /// The record at the front of `s` and the bytes after it, or `None` when
    /// `s` is too short.
    pub open spec fn spec_parse(s: Seq<u8>) -> Option<(AuxOutputHwId, Seq<u8>)> {
        if s.len() >= 8 {
            Some(
                (
                    AuxOutputHwId {
                        hw_id: u64_at(s, 0),
                    },
                    s.skip(8),
                ),
            )
        } else {
            None
        }
    }

    /// Decodes the record at the front of `buf`.
    pub fn parse(config: &ParseConfig, buf: &mut ByteBuffer) -> (r: Result<AuxOutputHwId, ParseError>)
        ensures
            match r {
                Ok(v) => AuxOutputHwId::spec_parse(old(buf)@) == Some((v, final(buf)@)),
                Err(e) => e == ParseError::Eof && AuxOutputHwId::spec_parse(old(buf)@) is None,
            },
    {
        let hw_id = buf.parse_u64()?;
        assert(buf@ =~= old(buf)@.skip(8));
        Ok(AuxOutputHwId { hw_id })
    }
}

} // verus!
