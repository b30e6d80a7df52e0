use crate::buffer::{ByteBuffer, ParseError};
use crate::decode::{trim_nuls, u16_at, u32_at, u64_at};
use crate::samples::config::ParseConfig;
use vstd::prelude::*;

verus! {

/// A kernel symbol was registered or unregistered (`PERF_RECORD_KSYMBOL`).
#[derive(Clone, Debug)]
pub struct KSymbol {
    pub addr: u64,
    pub len: u32,
    pub ksym_type: KSymbolType,
    pub flags: KSymbolFlags,
    /// The name of the symbol.
    pub name: Vec<u8>,
}

/// A [`KSymbol`] with its bytes as a sequence.
pub struct KSymbolView {
    pub addr: u64,
    pub len: u32,
    pub ksym_type: KSymbolType,
    pub flags: KSymbolFlags,
    pub name: Seq<u8>,
}

impl View for KSymbol {
    type V = KSymbolView;

    open spec fn view(&self) -> KSymbolView {
        KSymbolView {
            addr: self.addr,
            len: self.len,
            ksym_type: self.ksym_type,
            flags: self.flags,
            name: self.name@,
        }
    }
}

/// The kind of a kernel symbol.
#[derive(Clone, Copy, Debug, PartialEq, Eq, Hash, Structural)]
pub struct KSymbolType(pub u16);

impl KSymbolType {
    pub const UNKNOWN: u16 = 0;

    pub const BPF: u16 = 1;

    pub const OOL: u16 = 2;

    /// The tag with the given number. Numbers without a name are kept.
    pub fn new(value: u16) -> (r: Self)
        ensures
            r.0 == value,
    {
        KSymbolType(value)
    }
}

/// Flags of a [`KSymbol`] record.
#[derive(Clone, Copy, Debug, PartialEq, Eq, Hash, Structural)]
pub struct KSymbolFlags {
    pub bits: u16,
}

impl KSymbolFlags {
    /// The symbol is being unregistered.
    pub const UNREGISTER: u16 = 0x1;

    /// A set with exactly the given bits. Bits without a name are kept.
    pub fn new(bits: u16) -> (r: Self)
        ensures
            r.bits == bits,
    {
        KSymbolFlags { bits }
    }

    /// The underlying bits.
    pub fn bits(&self) -> (r: u16)
        ensures
            r == self.bits,
    {
        self.bits
    }

    /// Whether every bit of `flags` is set.
    #[verifier::allow_in_spec]
    pub fn contains(&self, flags: u16) -> bool
        returns
            self.bits & flags == flags,
    {
        self.bits & flags == flags
    }
}

impl KSymbol {
    /// The record at the front of `s` and the bytes after it, or `None` when
    /// `s` is too short.
    pub open spec fn spec_parse(s: Seq<u8>) -> Option<(KSymbolView, Seq<u8>)> {
        if s.len() >= 16 {
            Some(
                (
                    KSymbolView {
                        addr: u64_at(s, 0),
                        len: u32_at(s, 8),
                        ksym_type: KSymbolType(u16_at(s, 12)),
                        flags: KSymbolFlags { bits: u16_at(s, 14) },
                        name: trim_nuls(s.skip(16)),
                    },
                    Seq::empty(),
                ),
            )
        } else {
            None
        }
    }

    /// Decodes the record at the front of `buf`.
    ///
    /// The record takes all of `buf`: what follows its fixed fields is the
    /// zero-padded `name`.
    pub fn parse(config: &ParseConfig, buf: &mut ByteBuffer) -> (r: Result<KSymbol, ParseError>)
        ensures
            match r {
                Ok(v) => KSymbol::spec_parse(old(buf)@) == Some((v@, final(buf)@)),
                Err(e) => e == ParseError::Eof && KSymbol::spec_parse(old(buf)@) is None,
            },
    {
        let addr = buf.parse_u64()?;
        let len = buf.parse_u32()?;
        let ksym_type = KSymbolType::new(buf.parse_u16()?);
        let flags = KSymbolFlags::new(buf.parse_u16()?);
        assert(buf@ =~= old(buf)@.skip(16));
        let name = buf.parse_string();
        assert(buf@ =~= Seq::<u8>::empty());
        Ok(KSymbol { addr, len, ksym_type, flags, name })
    }
}

} // verus!
