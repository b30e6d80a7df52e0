use crate::buffer::{ByteBuffer, ParseError};
use crate::decode::{u16_at, u64_at};
use crate::samples::config::ParseConfig;
use vstd::prelude::*;

verus! {

/// The text of the kernel was changed (`PERF_RECORD_TEXT_POKE`).
#[derive(Clone, Debug)]
pub struct TextPoke {
    /// The address of the change.
    pub addr: u64,
    /// The bytes that were at `addr`.
    pub old_bytes: Vec<u8>,
    /// The bytes that are at `addr` now.
    pub new_bytes: Vec<u8>,
}

/// A [`TextPoke`] with its bytes as sequences.
pub struct TextPokeView {
    pub addr: u64,
    pub old_bytes: Seq<u8>,
    pub new_bytes: Seq<u8>,
}

impl View for TextPoke {
    type V = TextPokeView;

    open spec fn view(&self) -> TextPokeView {
        TextPokeView { addr: self.addr, old_bytes: self.old_bytes@, new_bytes: self.new_bytes@ }
    }
}

impl TextPoke {
    /// The record at the front of `s` and the bytes after it: an address,
    /// two 16-bit lengths, then the old bytes and the new bytes.
    pub open spec fn spec_parse(s: Seq<u8>) -> Option<(TextPokeView, Seq<u8>)> {
        if s.len() >= 12 && s.len() >= 12 + u16_at(s, 8) + u16_at(s, 10) {
            let old_len = u16_at(s, 8) as int;
            let new_len = u16_at(s, 10) as int;
            Some(
                (
                    TextPokeView {
                        addr: u64_at(s, 0),
                        old_bytes: s.subrange(12, 12 + old_len),
                        new_bytes: s.subrange(12 + old_len, 12 + old_len + new_len),
                    },
                    s.skip(12 + old_len + new_len),
                ),
            )
        } else {
            None
        }
    }

    /// Decodes the record at the front of `buf`.
    pub fn parse(config: &ParseConfig, buf: &mut ByteBuffer) -> (r: Result<TextPoke, ParseError>)
        ensures
            match r {
                Ok(v) => TextPoke::spec_parse(old(buf)@) == Some((v@, final(buf)@)),
                Err(e) => e == ParseError::Eof && TextPoke::spec_parse(old(buf)@) is None,
            },
    {
        let ghost s = buf@;
        let addr = buf.parse_u64()?;
        let old_len = buf.parse_u16()?;
        let new_len = buf.parse_u16()?;
        assert(buf@ =~= s.skip(12));
        let old_bytes = buf.parse_vec(old_len as usize)?;
        let new_bytes = buf.parse_vec(new_len as usize)?;
        proof {
            assert(old_bytes@ =~= s.subrange(12, 12 + old_len));
            assert(new_bytes@ =~= s.subrange(12 + old_len, 12 + old_len + new_len));
            assert(buf@ =~= s.skip(12 + old_len + new_len));
        }
        Ok(TextPoke { addr, old_bytes, new_bytes })
    }
}

} // verus!
