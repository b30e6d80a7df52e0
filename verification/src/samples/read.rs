use crate::buffer::{ByteBuffer, ParseError};
use crate::decode::u32_at;
use crate::samples::config::ParseConfig;
use crate::samples::read_value::{ReadValue, ReadValueView};
use vstd::prelude::*;

verus! {

/// The kernel has read the counters on its own (`PERF_RECORD_READ`).
#[derive(Clone, Debug)]
pub struct Read {
    pub pid: u32,
    pub tid: u32,
    pub values: ReadValue,
}

/// A [`Read`] with its values as a view.
pub struct ReadView {
    pub pid: u32,
    pub tid: u32,
    pub values: ReadValueView,
}

impl View for Read {
    type V = ReadView;

    open spec fn view(&self) -> ReadView {
        ReadView { pid: self.pid, tid: self.tid, values: self.values@ }
    }
}

impl Read {
    /// The record at the front of `s` and the bytes after it: two ids and
    /// the value in the shape that the read format gives it.
    pub open spec fn spec_parse(config: ParseConfig, s: Seq<u8>) -> Option<(ReadView, Seq<u8>)> {
        if s.len() >= 8 {
            match ReadValue::spec_parse(config, s.skip(8)) {
                Some((values, rest)) => Some(
                    (ReadView { pid: u32_at(s, 0), tid: u32_at(s, 4), values }, rest),
                ),
                None => None,
            }
        } else {
            None
        }
    }

    /// Decodes the record at the front of `buf`.
    pub fn parse(config: &ParseConfig, buf: &mut ByteBuffer) -> (r: Result<Read, ParseError>)
        ensures
            match r {
                Ok(v) => Read::spec_parse(*config, old(buf)@) == Some((v@, final(buf)@)),
                Err(e) => e == ParseError::Eof && Read::spec_parse(*config, old(buf)@) is None,
            },
    {
        let pid = buf.parse_u32()?;
        let tid = buf.parse_u32()?;
        assert(buf@ =~= old(buf)@.skip(8));
        let values = ReadValue::parse(config, buf)?;
        Ok(Read { pid, tid, values })
    }
}

} // verus!
