//! Branch records of the last-branch-record facility.

use crate::buffer::{ByteBuffer, ParseError};
use crate::decode::u64_at;
use crate::samples::config::ParseConfig;
use vstd::prelude::*;

verus! {

/// The kind of a recorded branch.
#[derive(Clone, Copy, Debug, PartialEq, Eq, Hash, Structural)]
pub struct BranchType(pub u8);

impl BranchType {
    pub const UNKNOWN: u8 = 0;

    pub const COND: u8 = 1;

    pub const UNCOND: u8 = 2;

    pub const IND: u8 = 3;

    pub const CALL: u8 = 4;

    pub const IND_CALL: u8 = 5;

    pub const RET: u8 = 6;

    pub const SYSCALL: u8 = 7;

    pub const SYSRET: u8 = 8;

    pub const COND_CALL: u8 = 9;

    pub const COND_RET: u8 = 10;

    /// The tag with the given number. Numbers without a name are kept.
    pub fn new(value: u8) -> (r: Self)
        ensures
            r.0 == value,
    {
        BranchType(value)
    }
}

/// A branch that the hardware recorded.
#[derive(Clone, Copy, Debug, PartialEq, Eq, Structural)]
pub struct BranchEntry {
    /// The address of the instruction branched from.
    pub from: u64,
    /// The address branched to.
    pub to: u64,
    /// What is known of the branch, packed: see the methods.
    pub flags: u64,
}

impl BranchEntry {
    /// The address of the source instruction, which need not be a branch.
    pub fn from(&self) -> (r: u64)
        ensures
            r == self.from,
    {
        self.from
    }

    /// The address of the branch target.
    pub fn to(&self) -> (r: u64)
        ensures
            r == self.to,
    {
        self.to
    }

    /// Whether the branch was mispredicted: bit 0.
    pub fn mispred(&self) -> (r: bool)
        ensures
            r == (self.flags & 0x1 != 0),
    {
        self.flags & 0x1 != 0
    }

    /// Whether the branch was predicted: bit 1.
    pub fn predicted(&self) -> (r: bool)
        ensures
            r == ((self.flags >> 1) & 0x1 != 0),
    {
        (self.flags >> 1) & 0x1 != 0
    }

    /// Whether the branch lay in a memory transaction: bit 2.
    pub fn in_tx(&self) -> (r: bool)
        ensures
            r == ((self.flags >> 2) & 0x1 != 0),
    {
        (self.flags >> 2) & 0x1 != 0
    }

    /// Whether the branch was a transaction abort: bit 3.
    pub fn abort(&self) -> (r: bool)
        ensures
            r == ((self.flags >> 3) & 0x1 != 0),
    {
        (self.flags >> 3) & 0x1 != 0
    }

    /// The cycles since the branch before: bits 4 to 19.
    pub fn cycles(&self) -> (r: u16)
        ensures
            r == (self.flags >> 4) & 0xffff,
    {
        let flags = self.flags;
        assert((flags >> 4) & 0xffff <= 0xffff) by (bit_vector);
        ((flags >> 4) & 0xffff) as u16
    }

    /// The kind of the branch: bits 20 to 23.
    pub fn ty(&self) -> (r: BranchType)
        ensures
            r.0 == (self.flags >> 20) & 0xf,
    {
        let flags = self.flags;
        assert((flags >> 20) & 0xf <= 0xf) by (bit_vector);
        BranchType::new(((flags >> 20) & 0xf) as u8)
    }

    /// The entry whose 24 bytes start at index `i` of `s`.
    pub open spec fn at(s: Seq<u8>, i: int) -> BranchEntry {
        BranchEntry { from: u64_at(s, i), to: u64_at(s, i + 8), flags: u64_at(s, i + 16) }
    }

    /// The entry at the front of `s` and the bytes after it.
    pub open spec fn spec_parse(s: Seq<u8>) -> Option<(BranchEntry, Seq<u8>)> {
        if s.len() >= 24 {
            Some((BranchEntry::at(s, 0), s.skip(24)))
        } else {
            None
        }
    }

    /// `n` entries off the front of `s` and the bytes after them.
    pub open spec fn take_n(s: Seq<u8>, n: nat) -> Option<(Seq<BranchEntry>, Seq<u8>)> {
        if s.len() >= 24 * n {
            Some((Seq::new(n, |k: int| BranchEntry::at(s, 24 * k)), s.skip(24 * n as int)))
        } else {
            None
        }
    }

    /// Decodes the entry at the front of `buf`.
    pub fn parse(config: &ParseConfig, buf: &mut ByteBuffer) -> (r: Result<
        BranchEntry,
        ParseError,
    >)
        ensures
            match r {
                Ok(v) => BranchEntry::spec_parse(old(buf)@) == Some((v, final(buf)@)),
                Err(e) => e == ParseError::Eof && BranchEntry::spec_parse(old(buf)@) is None,
            },
    {
        let from = buf.parse_u64()?;
        let to = buf.parse_u64()?;
        let flags = buf.parse_u64()?;
        assert(buf@ =~= old(buf)@.skip(24));
        Ok(BranchEntry { from, to, flags })
    }

    /// Decodes `count` entries at the front of `buf`.
    pub fn parse_n(config: &ParseConfig, buf: &mut ByteBuffer, count: u64) -> (r: Result<
        Vec<BranchEntry>,
        ParseError,
    >)
        ensures
            match r {
                Ok(v) => BranchEntry::take_n(old(buf)@, count as nat) == Some(
                    (v@, final(buf)@),
                ),
                Err(e) => e == ParseError::Eof && BranchEntry::take_n(old(buf)@, count as nat)
                    is None,
            },
    {
        let ghost s = buf@;
        let mut out: Vec<BranchEntry> = Vec::new();
        let mut i: u64 = 0;
        assert(buf@ =~= s.skip(0));
        while i < count
            invariant
                i <= count,
                s == old(buf)@,
                s.len() >= 24 * i,
                buf@ == s.skip(24 * i),
                out@ == Seq::new(i as nat, |k: int| BranchEntry::at(s, 24 * k)),
            decreases count - i,
        {
            let entry = BranchEntry::parse(config, buf)?;
            out.push(entry);
            i += 1;
            proof {
                assert(buf@ =~= s.skip(24 * i));
                assert(out@ =~= Seq::new(i as nat, |k: int| BranchEntry::at(s, 24 * k)));
            }
        }
        Ok(out)
    }
}

} // verus!
