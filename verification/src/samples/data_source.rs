//! Where in the memory hierarchy a sampled instruction found its data.

use crate::buffer::{ByteBuffer, ParseError};
use crate::decode::u64_at;
use crate::samples::config::ParseConfig;
use vstd::prelude::*;

verus! {

/// The kind of memory operation of a sampled instruction.
#[derive(Clone, Copy, Debug, PartialEq, Eq, Hash, Structural)]
pub struct MemOp {
    pub bits: u64,
}

impl MemOp {
    pub const NA: u64 = 0x1;

    pub const LOAD: u64 = 0x2;

    pub const STORE: u64 = 0x4;

    pub const PFETCH: u64 = 0x8;

    pub const EXEC: u64 = 0x10;

    /// A set with exactly the given bits. Bits without a name are kept.
    pub fn new(bits: u64) -> (r: Self)
        ensures
            r.bits == bits,
    {
        MemOp { bits }
    }

    /// The underlying bits.
    pub fn bits(&self) -> (r: u64)
        ensures
            r == self.bits,
    {
        self.bits
    }

    /// Whether every bit of `flags` is set.
    #[verifier::allow_in_spec]
    pub fn contains(&self, flags: u64) -> bool
        returns
            self.bits & flags == flags,
    {
        self.bits & flags == flags
    }
}

/// Where in the memory hierarchy an access was served.
#[derive(Clone, Copy, Debug, PartialEq, Eq, Hash, Structural)]
pub struct MemLevel {
    pub bits: u64,
}

impl MemLevel {
    pub const NA: u64 = 0x1;

    pub const HIT: u64 = 0x2;

    pub const MISS: u64 = 0x4;

    pub const L1: u64 = 0x8;

    pub const LFB: u64 = 0x10;

    pub const L2: u64 = 0x20;

    pub const L3: u64 = 0x40;

    pub const LOC_RAM: u64 = 0x80;

    pub const REM_RAM1: u64 = 0x100;

    pub const REM_RAM2: u64 = 0x200;

    pub const REM_CCE1: u64 = 0x400;

    pub const REM_CCE2: u64 = 0x800;

    pub const IO: u64 = 0x1000;

    pub const UNC: u64 = 0x2000;

    /// A set with exactly the given bits. Bits without a name are kept.
    pub fn new(bits: u64) -> (r: Self)
        ensures
            r.bits == bits,
    {
        MemLevel { bits }
    }

    /// The underlying bits.
    pub fn bits(&self) -> (r: u64)
        ensures
            r == self.bits,
    {
        self.bits
    }

    /// Whether every bit of `flags` is set.
    #[verifier::allow_in_spec]
    pub fn contains(&self, flags: u64) -> bool
        returns
            self.bits & flags == flags,
    {
        self.bits & flags == flags
    }
}

/// The snoop mode of a memory access.
#[derive(Clone, Copy, Debug, PartialEq, Eq, Hash, Structural)]
pub struct MemSnoop {
    pub bits: u64,
}

impl MemSnoop {
    pub const NA: u64 = 0x1;

    pub const NONE: u64 = 0x2;

    pub const HIT: u64 = 0x4;

    pub const MISS: u64 = 0x8;

    pub const HITM: u64 = 0x10;

    /// A set with exactly the given bits. Bits without a name are kept.
    pub fn new(bits: u64) -> (r: Self)
        ensures
            r.bits == bits,
    {
        MemSnoop { bits }
    }

    /// The underlying bits.
    pub fn bits(&self) -> (r: u64)
        ensures
            r == self.bits,
    {
        self.bits
    }

    /// Whether every bit of `flags` is set.
    #[verifier::allow_in_spec]
    pub fn contains(&self, flags: u64) -> bool
        returns
            self.bits & flags == flags,
    {
        self.bits & flags == flags
    }
}

/// Whether the sampled instruction was a locked one.
#[derive(Clone, Copy, Debug, PartialEq, Eq, Hash, Structural)]
pub struct MemLock {
    pub bits: u64,
}

impl MemLock {
    pub const NA: u64 = 0x1;

    pub const LOCKED: u64 = 0x2;

    /// A set with exactly the given bits. Bits without a name are kept.
    pub fn new(bits: u64) -> (r: Self)
        ensures
            r.bits == bits,
    {
        MemLock { bits }
    }

    /// The underlying bits.
    pub fn bits(&self) -> (r: u64)
        ensures
            r == self.bits,
    {
        self.bits
    }

    /// Whether every bit of `flags` is set.
    #[verifier::allow_in_spec]
    pub fn contains(&self, flags: u64) -> bool
        returns
            self.bits & flags == flags,
    {
        self.bits & flags == flags
    }
}

/// How the TLB served a memory access.
#[derive(Clone, Copy, Debug, PartialEq, Eq, Hash, Structural)]
pub struct MemDtlb {
    pub bits: u64,
}

impl MemDtlb {
    pub const NA: u64 = 0x1;

    pub const HIT: u64 = 0x2;

    pub const MISS: u64 = 0x4;

    pub const L1: u64 = 0x8;

    pub const L2: u64 = 0x10;

    pub const WK: u64 = 0x20;

    pub const OS: u64 = 0x40;

    /// A set with exactly the given bits. Bits without a name are kept.
    pub fn new(bits: u64) -> (r: Self)
        ensures
            r.bits == bits,
    {
        MemDtlb { bits }
    }

    /// The underlying bits.
    pub fn bits(&self) -> (r: u64)
        ensures
            r == self.bits,
    {
        self.bits
    }

    /// Whether every bit of `flags` is set.
    #[verifier::allow_in_spec]
    pub fn contains(&self, flags: u64) -> bool
        returns
            self.bits & flags == flags,
    {
        self.bits & flags == flags
    }
}

/// More bits of the snoop mode.
#[derive(Clone, Copy, Debug, PartialEq, Eq, Hash, Structural)]
pub struct MemSnoopX {
    pub bits: u64,
}

impl MemSnoopX {
    pub const FWD: u64 = 0x1;

    /// A set with exactly the given bits. Bits without a name are kept.
    pub fn new(bits: u64) -> (r: Self)
        ensures
            r.bits == bits,
    {
        MemSnoopX { bits }
    }

    /// The underlying bits.
    pub fn bits(&self) -> (r: u64)
        ensures
            r == self.bits,
    {
        self.bits
    }

    /// Whether every bit of `flags` is set.
    #[verifier::allow_in_spec]
    pub fn contains(&self, flags: u64) -> bool
        returns
            self.bits & flags == flags,
    {
        self.bits & flags == flags
    }
}

/// What happened in a memory transaction: a set of `PERF_TXN_*` bits.
#[derive(Clone, Copy, Debug, PartialEq, Eq, Hash, Structural)]
pub struct Txn {
    pub bits: u64,
}

impl Txn {
    pub const ELISION: u64 = 0x1;

    pub const TRANSACTION: u64 = 0x2;

    pub const SYNC: u64 = 0x4;

    pub const ASYNC: u64 = 0x8;

    pub const RETRY: u64 = 0x10;

    pub const CONFLICT: u64 = 0x20;

    pub const CAPACITY_WRITE: u64 = 0x40;

    pub const CAPACITY_READ: u64 = 0x80;

    /// The upper half holds the abort code that the program gave.
    pub const ABORT_MASK: u64 = 0xffff_ffff_0000_0000;

    /// A set with exactly the given bits. Bits without a name are kept.
    pub fn new(bits: u64) -> (r: Self)
        ensures
            r.bits == bits,
    {
        Txn { bits }
    }

    /// The underlying bits.
    pub fn bits(&self) -> (r: u64)
        ensures
            r == self.bits,
    {
        self.bits
    }

    /// Whether every bit of `flags` is set.
    #[verifier::allow_in_spec]
    pub fn contains(&self, flags: u64) -> bool
        returns
            self.bits & flags == flags,
    {
        self.bits & flags == flags
    }

    /// The abort code that the program gave: the upper 32 bits.
    pub fn abort(&self) -> (r: u32)
        ensures
            r == self.bits >> 32,
    {
        let bits = self.bits;
        assert(bits >> 32 <= 0xffff_ffff) by (bit_vector);
        (bits >> 32) as u32
    }
}

/// The level of the memory hierarchy, as a number.
#[derive(Clone, Copy, Debug, PartialEq, Eq, Hash, Structural)]
pub struct MemLevelNum(pub u8);

impl MemLevelNum {
    pub const L1: u8 = 0x1;

    pub const L2: u8 = 0x2;

    pub const L3: u8 = 0x3;

    pub const L4: u8 = 0x4;

    pub const ANY_CACHE: u8 = 0xb;

    pub const LFB: u8 = 0xc;

    pub const RAM: u8 = 0xd;

    pub const PMEM: u8 = 0xe;

    pub const NA: u8 = 0xf;

    /// The tag with the given number. Numbers without a name are kept.
    pub fn new(value: u8) -> (r: Self)
        ensures
            r.0 == value,
    {
        MemLevelNum(value)
    }
}

/// The data source of a sample: several small fields packed into 64 bits.
#[derive(Clone, Copy, Debug, PartialEq, Eq, Hash, Structural)]
pub struct DataSource(pub u64);

impl DataSource {
    /// The kind of operation: the named bits among bits 0 to 4.
    pub fn mem_op(&self) -> (r: MemOp)
        ensures
            r.bits == self.0 & 0x1f,
    {
        MemOp::new(self.0 & 0x1f)
    }

    /// The level that was hit or missed: the named bits among bits 5 to 18.
    pub fn mem_lvl(&self) -> (r: MemLevel)
        ensures
            r.bits == (self.0 >> 5) & 0x3fff,
    {
        MemLevel::new((self.0 >> 5) & 0x3fff)
    }

    /// The snoop mode: the named bits among bits 19 to 23.
    pub fn mem_snoop(&self) -> (r: MemSnoop)
        ensures
            r.bits == (self.0 >> 19) & 0x1f,
    {
        MemSnoop::new((self.0 >> 19) & 0x1f)
    }

    /// Whether the instruction was locked: bits 24 and 25.
    pub fn mem_lock(&self) -> (r: MemLock)
        ensures
            r.bits == (self.0 >> 24) & 0x3,
    {
        MemLock::new((self.0 >> 24) & 0x3)
    }

    /// How the TLB served the access: bits 26 to 32.
    pub fn mem_dtlb(&self) -> (r: MemDtlb)
        ensures
            r.bits == (self.0 >> 26) & 0x7f,
    {
        MemDtlb::new((self.0 >> 26) & 0x7f)
    }

    /// The level as a number: bits 33 to 36.
    pub fn mem_lvl_num(&self) -> (r: MemLevelNum)
        ensures
            r.0 == (self.0 >> 33) & 0xf,
    {
        let bits = self.0;
        assert((bits >> 33) & 0xf <= 0xf) by (bit_vector);
        MemLevelNum::new(((bits >> 33) & 0xf) as u8)
    }

    /// Whether the access was remote: bit 37.
    pub fn mem_remote(&self) -> (r: bool)
        ensures
            r == ((self.0 >> 37) & 0x1 != 0),
    {
        ((self.0 >> 37) & 0x1) != 0
    }

    /// More of the snoop mode: bits 38 and 39.
    pub fn mem_snoopx(&self) -> (r: MemSnoopX)
        ensures
            r.bits == (self.0 >> 38) & 0x3,
    {
        MemSnoopX::new((self.0 >> 38) & 0x3)
    }

    /// The data source at the front of `s` and the bytes after it.
    pub open spec fn spec_parse(s: Seq<u8>) -> Option<(DataSource, Seq<u8>)> {
        if s.len() >= 8 {
            Some((DataSource(u64_at(s, 0)), s.skip(8)))
        } else {
            None
        }
    }

    /// Decodes the data source at the front of `buf`.
    pub fn parse(config: &ParseConfig, buf: &mut ByteBuffer) -> (r: Result<DataSource, ParseError>)
        ensures
            match r {
                Ok(v) => DataSource::spec_parse(old(buf)@) == Some((v, final(buf)@)),
                Err(e) => e == ParseError::Eof && DataSource::spec_parse(old(buf)@) is None,
            },
    {
        Ok(DataSource(buf.parse_u64()?))
    }
}

} // verus!
