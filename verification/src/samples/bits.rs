//! Bit sets and numeric tags that describe the shape of a record.
//!
//! The kernel may define new bits and new tags at any time. Each type here is
//! therefore a plain integer with names for the values known today, and keeps
//! whatever else it is given.

use vstd::prelude::*;

verus! {

/// Which fields a sample holds: a set of `PERF_SAMPLE_*` bits.
#[derive(Clone, Copy, Debug, PartialEq, Eq, Hash, Structural)]
pub struct SampleType {
    pub bits: u64,
}

impl SampleType {
    pub const IP: u64 = 0x1;

    pub const TID: u64 = 0x2;

    pub const TIME: u64 = 0x4;

    pub const ADDR: u64 = 0x8;

    pub const READ: u64 = 0x10;

    pub const CALLCHAIN: u64 = 0x20;

    pub const ID: u64 = 0x40;

    pub const CPU: u64 = 0x80;

    pub const PERIOD: u64 = 0x100;

    pub const STREAM_ID: u64 = 0x200;

    pub const RAW: u64 = 0x400;

    pub const BRANCH_STACK: u64 = 0x800;

    pub const REGS_USER: u64 = 0x1000;

    pub const STACK_USER: u64 = 0x2000;

    pub const WEIGHT: u64 = 0x4000;

    pub const DATA_SRC: u64 = 0x8000;

    pub const IDENTIFIER: u64 = 0x10000;

    pub const TRANSACTION: u64 = 0x20000;

    pub const REGS_INTR: u64 = 0x40000;

    pub const PHYS_ADDR: u64 = 0x80000;

    pub const AUX: u64 = 0x100000;

    pub const CGROUP: u64 = 0x200000;

    pub const DATA_PAGE_SIZE: u64 = 0x400000;

    pub const CODE_PAGE_SIZE: u64 = 0x800000;

    pub const WEIGHT_STRUCT: u64 = 0x1000000;

    /// A set with exactly the given bits. Bits without a name are kept.
    pub fn new(bits: u64) -> (r: Self)
        ensures
            r.bits == bits,
    {
        SampleType { bits }
    }

    /// The underlying bits.
    pub fn bits(&self) -> (r: u64)
        ensures
            r == self.bits,
    {
        self.bits
    }

    /// Whether every bit of `flags` is set.
    #[verifier::allow_in_spec]
    pub fn contains(&self, flags: u64) -> bool
        returns
            self.bits & flags == flags,
    {
        self.bits & flags == flags
    }
}

/// What a counter value is reported with: a set of `PERF_FORMAT_*` bits.
#[derive(Clone, Copy, Debug, PartialEq, Eq, Hash, Structural)]
pub struct ReadFormat {
    pub bits: u64,
}

impl ReadFormat {
    /// The time for which the counter was enabled is reported.
    pub const TOTAL_TIME_ENABLED: u64 = 0x1;

    /// The time for which the counter was running is reported.
    pub const TOTAL_TIME_RUNNING: u64 = 0x2;

    /// Each value comes with the id of its counter.
    pub const ID: u64 = 0x4;

    /// The values of all counters of the group are reported at once.
    pub const GROUP: u64 = 0x8;

    /// Each value comes with the number of lost samples.
    pub const LOST: u64 = 0x10;

    /// A set with exactly the given bits. Bits without a name are kept.
    pub fn new(bits: u64) -> (r: Self)
        ensures
            r.bits == bits,
    {
        ReadFormat { bits }
    }

    /// The underlying bits.
    pub fn bits(&self) -> (r: u64)
        ensures
            r == self.bits,
    {
        self.bits
    }

    /// Whether every bit of `flags` is set.
    #[verifier::allow_in_spec]
    pub fn contains(&self, flags: u64) -> bool
        returns
            self.bits & flags == flags,
    {
        self.bits & flags == flags
    }
}

/// The `misc` field of a record header.
///
/// Some bits mean different things for different kinds of record, so several
/// names share a value.
#[derive(Clone, Copy, Debug, PartialEq, Eq, Hash, Structural)]
pub struct RecordMiscFlags {
    pub bits: u16,
}

impl RecordMiscFlags {
    /// The low bits hold a CPU mode rather than flags; see [`cpumode`](Self::cpumode).
    pub const CPUMODE_MASK: u16 = 0x7;

    /// The memory mapping of an `Mmap` or `Mmap2` record is not executable.
    pub const MMAP_DATA: u16 = 0x2000;

    /// The `Comm` record is due to an `exec` call.
    pub const COMM_EXEC: u16 = 0x2000;

    /// The context switch was away from the process of the record.
    pub const SWITCH_OUT: u16 = 0x2000;

    /// The instruction pointer of the sample is that of the instruction that
    /// caused the event.
    pub const EXACT_IP: u16 = 0x4000;

    pub const EXT_RESERVED: u16 = 0x8000;

    /// A set with exactly the given bits. Bits without a name are kept.
    pub fn new(bits: u16) -> (r: Self)
        ensures
            r.bits == bits,
    {
        RecordMiscFlags { bits }
    }

    /// The underlying bits.
    pub fn bits(&self) -> (r: u16)
        ensures
            r == self.bits,
    {
        self.bits
    }

    /// Whether every bit of `flags` is set.
    #[verifier::allow_in_spec]
    pub fn contains(&self, flags: u16) -> bool
        returns
            self.bits & flags == flags,
    {
        self.bits & flags == flags
    }

    /// The CPU mode held in the low bits.
    pub fn cpumode(&self) -> (r: RecordCpuMode)
        ensures
            r.0 == self.bits & RecordMiscFlags::CPUMODE_MASK,
    {
        RecordCpuMode(self.bits & RecordMiscFlags::CPUMODE_MASK)
    }
}

/// The kind of a record: a `PERF_RECORD_*` number.
#[derive(Clone, Copy, Debug, PartialEq, Eq, Hash, Structural)]
pub struct RecordType(pub u32);

impl RecordType {
    pub const MMAP: u32 = 1;

    pub const LOST: u32 = 2;

    pub const COMM: u32 = 3;

    pub const EXIT: u32 = 4;

    pub const THROTTLE: u32 = 5;

    pub const UNTHROTTLE: u32 = 6;

    pub const FORK: u32 = 7;

    pub const READ: u32 = 8;

    pub const SAMPLE: u32 = 9;

    pub const MMAP2: u32 = 10;

    pub const AUX: u32 = 11;

    pub const ITRACE_START: u32 = 12;

    pub const LOST_SAMPLES: u32 = 13;

    pub const SWITCH: u32 = 14;

    pub const SWITCH_CPU_WIDE: u32 = 15;

    pub const NAMESPACES: u32 = 16;

    pub const KSYMBOL: u32 = 17;

    pub const BPF_EVENT: u32 = 18;

    pub const CGROUP: u32 = 19;

    pub const TEXT_POKE: u32 = 20;

    /// The tag with the given number. Numbers without a name are kept.
    pub fn new(value: u32) -> (r: Self)
        ensures
            r.0 == value,
    {
        RecordType(value)
    }
}

/// The register convention of the program whose registers were captured.
#[derive(Clone, Copy, Debug, PartialEq, Eq, Hash, Structural)]
pub struct SampleRegsAbi(pub u64);

impl SampleRegsAbi {
    /// No registers were captured.
    pub const NONE: u64 = 0;

    pub const ABI_32: u64 = 1;

    pub const ABI_64: u64 = 2;

    /// The tag with the given number. Numbers without a name are kept.
    pub fn new(value: u64) -> (r: Self)
        ensures
            r.0 == value,
    {
        SampleRegsAbi(value)
    }
}

/// The CPU mode in which a record was produced.
#[derive(Clone, Copy, Debug, PartialEq, Eq, Hash, Structural)]
pub struct RecordCpuMode(pub u16);

impl RecordCpuMode {
    pub const UNKNOWN: u16 = 0;

    pub const KERNEL: u16 = 1;

    pub const USER: u16 = 2;

    pub const HYPERVISOR: u16 = 3;

    pub const GUEST_KERNEL: u16 = 4;

    pub const GUEST_USER: u16 = 5;

    /// The tag with the given number. Numbers without a name are kept.
    pub fn new(value: u16) -> (r: Self)
        ensures
            r.0 == value,
    {
        RecordCpuMode(value)
    }
}

} // verus!
