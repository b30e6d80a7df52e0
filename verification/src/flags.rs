//! Options of a counter that shape what it records.

use vstd::prelude::*;

verus! {

/// How many instructions may lie between an event and the instruction
/// pointer recorded for it.
#[derive(Clone, Copy, Debug, PartialEq, Eq, Hash, Structural)]
pub enum SampleSkid {
    /// Any number of instructions.
    Arbitrary,
    /// A constant number of instructions.
    Constant,
    /// None was asked for, without a guarantee.
    RequestZero,
    /// None: samples then carry the exact instruction pointer.
    RequireZero,
}

impl SampleSkid {
    /// The value of the `precise_ip` attribute field for this setting.
    pub fn precise_ip(&self) -> (r: u8)
        ensures
            r == match *self {
                SampleSkid::Arbitrary => 0u8,
                SampleSkid::Constant => 1u8,
                SampleSkid::RequestZero => 2u8,
                SampleSkid::RequireZero => 3u8,
            },
    {
        match self {
            SampleSkid::Arbitrary => 0,
            SampleSkid::Constant => 1,
            SampleSkid::RequestZero => 2,
            SampleSkid::RequireZero => 3,
        }
    }
}

/// Which branches a branch record holds: a set of `PERF_SAMPLE_BRANCH_*`
/// bits.
#[derive(Clone, Copy, Debug, PartialEq, Eq, Hash, Structural)]
pub struct SampleBranchFlag {
    pub bits: u64,
}

impl SampleBranchFlag {
    /// The branch target is in user space.
    pub const USER: u64 = 0x1;

    /// The branch target is in kernel space.
    pub const KERNEL: u64 = 0x2;

    /// The branch target is in the hypervisor.
    pub const HV: u64 = 0x4;

    /// Any kind of branch.
    pub const ANY: u64 = 0x8;

    /// Any call: direct, indirect or far jump.
    pub const ANY_CALL: u64 = 0x10;

    /// Any return.
    pub const ANY_RETURN: u64 = 0x20;

    /// Indirect calls.
    pub const IND_CALL: u64 = 0x40;

    /// Transactional memory aborts.
    pub const ABORT_TX: u64 = 0x80;

    /// Branches inside a memory transaction.
    pub const IN_TX: u64 = 0x100;

    /// Branches outside a memory transaction.
    pub const NO_TX: u64 = 0x200;

    /// Conditional branches.
    pub const COND: u64 = 0x400;

    /// Branches of a call stack that the hardware keeps.
    pub const CALL_STACK: u64 = 0x800;

    /// Indirect jumps.
    pub const IND_JUMP: u64 = 0x1000;

    /// Direct calls.
    pub const CALL: u64 = 0x2000;

    /// The branch array of a sample is preceded by a hardware index.
    pub const HW_INDEX: u64 = 0x20000;

    /// All privilege levels: user, kernel and hypervisor.
    pub const PLM_ALL: u64 = 0x7;

    /// A set with exactly the given bits. Bits without a name are kept.
    pub fn new(bits: u64) -> (r: Self)
        ensures
            r.bits == bits,
    {
        SampleBranchFlag { bits }
    }

    /// The underlying bits.
    pub fn bits(&self) -> (r: u64)
        ensures
            r == self.bits,
    {
        self.bits
    }

    /// Whether every bit of `flags` is set.
    #[verifier::allow_in_spec]
    pub fn contains(&self, flags: u64) -> bool
        returns
            self.bits & flags == flags,
    {
        self.bits & flags == flags
    }
}

} // verus!
