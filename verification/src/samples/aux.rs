use crate::buffer::{ByteBuffer, ParseError};
use crate::decode::u64_at;
use crate::samples::config::ParseConfig;
use vstd::prelude::*;

verus! {

/// New data is available in the aux buffer (`PERF_RECORD_AUX`).
#[derive(Clone, Copy, Debug, PartialEq, Eq, Structural)]
pub struct Aux {
    pub aux_offset: u64,
    pub aux_size: u64,
    pub flags: AuxFlags,
}

/// What happened to the aux data: a set of `PERF_AUX_FLAG_*` bits.
#[derive(Clone, Copy, Debug, PartialEq, Eq, Hash, Structural)]
pub struct AuxFlags {
    pub bits: u64,
}

impl AuxFlags {
    /// The data was cut short to fit the buffer.
    pub const TRUNCATED: u64 = 0x1;

    /// The data overwrote earlier data.
    pub const OVERWRITE: u64 = 0x2;

    /// The data has gaps.
    pub const PARTIAL: u64 = 0x4;

    /// The sample collided with another.
    pub const COLLISION: u64 = 0x8;

    /// These bits hold an [`AuxPmuFormatType`] rather than flags.
    pub const PMU_FORMAT_MASK: u64 = 0xff00;

    /// A set with exactly the given bits. Bits without a name are kept.
    pub fn new(bits: u64) -> (r: Self)
        ensures
            r.bits == bits,
    {
        AuxFlags { bits }
    }

    /// The underlying bits.
    pub fn bits(&self) -> (r: u64)
        ensures
            r == self.bits,
    {
        self.bits
    }

    /// Whether every bit of `flags` is set.
    #[verifier::allow_in_spec]
    pub fn contains(&self, flags: u64) -> bool
        returns
            self.bits & flags == flags,
    {
        self.bits & flags == flags
    }

    /// The trace format held in bits 8 to 15.
    pub fn pmu_format_type(&self) -> (r: AuxPmuFormatType)
        ensures
            r.0 == ((self.bits & AuxFlags::PMU_FORMAT_MASK) >> 8) as u8,
    {
        let bits = self.bits;
        let masked = (bits & AuxFlags::PMU_FORMAT_MASK) >> 8;
        assert(masked <= 0xff) by (bit_vector)
            requires
                masked == (bits & 0xff00) >> 8,
        ;
        AuxPmuFormatType(masked as u8)
    }
}

/// The trace format of a PMU.
#[derive(Clone, Copy, Debug, PartialEq, Eq, Hash, Structural)]
pub struct AuxPmuFormatType(pub u8);

impl AuxPmuFormatType {
    pub const CORESIGHT: u8 = 0;

    pub const CORESIGHT_RAW: u8 = 1;

    /// The tag with the given number. Numbers without a name are kept.
    pub fn new(value: u8) -> (r: Self)
        ensures
            r.0 == value,
    {
        AuxPmuFormatType(value)
    }
}

impl Aux {
    /// The record at the front of `s` and the bytes after it, or `None` when
    /// `s` is too short.
    pub open spec fn spec_parse(s: Seq<u8>) -> Option<(Aux, Seq<u8>)> {
        if s.len() >= 24 {
            Some(
                (
                    Aux {
                        aux_offset: u64_at(s, 0),
                        aux_size: u64_at(s, 8),
                        flags: AuxFlags { bits: u64_at(s, 16) },
                    },
                    s.skip(24),
                ),
            )
        } else {
            None
        }
    }

    /// Decodes the record at the front of `buf`.
    pub fn parse(config: &ParseConfig, buf: &mut ByteBuffer) -> (r: Result<Aux, ParseError>)
        ensures
            match r {
                Ok(v) => Aux::spec_parse(old(buf)@) == Some((v, final(buf)@)),
                Err(e) => e == ParseError::Eof && Aux::spec_parse(old(buf)@) is None,
            },
    {
        let aux_offset = buf.parse_u64()?;
        let aux_size = buf.parse_u64()?;
        let flags = AuxFlags::new(buf.parse_u64()?);
        assert(buf@ =~= old(buf)@.skip(24));
        Ok(Aux { aux_offset, aux_size, flags })
    }
}

} // verus!
