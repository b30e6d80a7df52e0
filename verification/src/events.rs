//! The events that a counter can count.
//!
//! An event says what it is by filling in a few fields of the attributes
//! with which a counter is opened. [`EventAttr`] holds those fields.

pub mod dynamic;
pub mod msr;
pub mod raw;
pub mod text;
pub mod util;
pub mod x86;

pub use crate::events::dynamic::{
    Dynamic, DynamicBuilder, DynamicBuilderError, MissingParameterError,
};
pub use crate::events::msr::{MSRConfig, MSREvent};
pub use crate::events::raw::Raw;

use vstd::prelude::*;

verus! {

/// The kind of event counted by the processor itself.
pub const PERF_TYPE_HARDWARE: u32 = 0;

/// The kind of event counted by the kernel.
pub const PERF_TYPE_SOFTWARE: u32 = 1;

/// The kind of event that is a kernel tracepoint.
pub const PERF_TYPE_TRACEPOINT: u32 = 2;

/// The kind of event counted by a cache of the processor.
pub const PERF_TYPE_HW_CACHE: u32 = 3;

/// The kind of event given by its raw number.
pub const PERF_TYPE_RAW: u32 = 4;

/// The kind of event that is a hardware breakpoint.
pub const PERF_TYPE_BREAKPOINT: u32 = 5;

/// The breakpoint type for the execution of an instruction.
pub const HW_BREAKPOINT_X: u32 = 4;

/// The fields of the attributes of a counter that select its event.
///
/// For a breakpoint the kernel reads the address from the place of
/// `config1` and the length from the place of `config2`.
#[derive(Clone, Copy, Debug, PartialEq, Eq, Structural)]
pub struct EventAttr {
    pub type_: u32,
    pub config: u64,
    pub config1: u64,
    pub config2: u64,
    pub bp_type: u32,
}

impl EventAttr {
    /// Attributes that select nothing yet.
    pub fn new() -> (r: Self)
        ensures
            r == (EventAttr { type_: 0, config: 0, config1: 0, config2: 0, bp_type: 0 }),
    {
        EventAttr { type_: 0, config: 0, config1: 0, config2: 0, bp_type: 0 }
    }
}

/// An event that a counter can count.
pub trait Event: Sized {
    /// The attributes `attr` after the event has filled in its fields.
    spec fn spec_update_attrs(self, attr: EventAttr) -> EventAttr;

    /// Fills in the fields of `attr` that select this event.
    fn update_attrs(self, attr: &mut EventAttr)
        ensures
            *final(attr) == self.spec_update_attrs(*old(attr)),
    ;
}

/// Events counted by the processor itself: a `PERF_COUNT_HW_*` number.
#[derive(Clone, Copy, Debug, PartialEq, Eq, Hash, Structural)]
pub struct Hardware(pub u64);

impl Hardware {
    /// Total cycles.
    pub const CPU_CYCLES: u64 = 0;

    /// Retired instructions.
    pub const INSTRUCTIONS: u64 = 1;

    /// Cache accesses.
    pub const CACHE_REFERENCES: u64 = 2;

    /// Cache misses.
    pub const CACHE_MISSES: u64 = 3;

    /// Retired branch instructions.
    pub const BRANCH_INSTRUCTIONS: u64 = 4;

    /// Mispredicted branch instructions.
    pub const BRANCH_MISSES: u64 = 5;

    /// Bus cycles.
    pub const BUS_CYCLES: u64 = 6;

    /// Stalled cycles during issue.
    pub const STALLED_CYCLES_FRONTEND: u64 = 7;

    /// Stalled cycles during retirement.
    pub const STALLED_CYCLES_BACKEND: u64 = 8;

    /// Total cycles, whatever the frequency of the processor.
    pub const REF_CPU_CYCLES: u64 = 9;

    /// The tag with the given number. Numbers without a name are kept.
    pub fn new(value: u64) -> (r: Self)
        ensures
            r.0 == value,
    {
        Hardware(value)
    }
}

impl Event for Hardware {
    open spec fn spec_update_attrs(self, attr: EventAttr) -> EventAttr {
        EventAttr { type_: PERF_TYPE_HARDWARE, config: self.0, ..attr }
    }

    fn update_attrs(self, attr: &mut EventAttr) {
        attr.type_ = PERF_TYPE_HARDWARE;
        attr.config = self.0;
    }
}

/// Events counted by the kernel: a `PERF_COUNT_SW_*` number.
#[derive(Clone, Copy, Debug, PartialEq, Eq, Hash, Structural)]
pub struct Software(pub u64);

impl Software {
    /// High-resolution timer of the CPU.
    pub const CPU_CLOCK: u64 = 0;

    /// Clock of the task.
    pub const TASK_CLOCK: u64 = 1;

    /// Page faults.
    pub const PAGE_FAULTS: u64 = 2;

    /// Context switches.
    pub const CONTEXT_SWITCHES: u64 = 3;

    /// Moves of the process to another CPU.
    pub const CPU_MIGRATIONS: u64 = 4;

    /// Minor page faults, resolved without I/O.
    pub const PAGE_FAULTS_MIN: u64 = 5;

    /// Major page faults, resolved with I/O.
    pub const PAGE_FAULTS_MAJ: u64 = 6;

    /// Alignment faults that the kernel had to handle.
    pub const ALIGNMENT_FAULTS: u64 = 7;

    /// Instruction emulation faults.
    pub const EMULATION_FAULTS: u64 = 8;

    /// A placeholder that counts nothing, for collecting records.
    pub const DUMMY: u64 = 9;

    /// Data streamed out of a BPF program.
    pub const BPF_OUTPUT: u64 = 10;

    /// Context switches to a task of another cgroup.
    pub const CGROUP_SWITCHES: u64 = 11;

    /// The tag with the given number. Numbers without a name are kept.
    pub fn new(value: u64) -> (r: Self)
        ensures
            r.0 == value,
    {
        Software(value)
    }
}

impl Event for Software {
    open spec fn spec_update_attrs(self, attr: EventAttr) -> EventAttr {
        EventAttr { type_: PERF_TYPE_SOFTWARE, config: self.0, ..attr }
    }

    fn update_attrs(self, attr: &mut EventAttr) {
        attr.type_ = PERF_TYPE_SOFTWARE;
        attr.config = self.0;
    }
}

/// A cache whose events can be counted.
#[derive(Clone, Copy, Debug, PartialEq, Eq, Hash, Structural)]
pub struct WhichCache(pub u8);

impl WhichCache {
    /// Level 1 data cache.
    pub const L1D: u8 = 0;

    /// Level 1 instruction cache.
    pub const L1I: u8 = 1;

    /// Last-level cache.
    pub const LL: u8 = 2;

    /// Data translation lookaside buffer.
    pub const DTLB: u8 = 3;

    /// Instruction translation lookaside buffer.
    pub const ITLB: u8 = 4;

    /// Branch prediction.
    pub const BPU: u8 = 5;

    /// Memory accesses that stay local to the NUMA node.
    pub const NODE: u8 = 6;

    /// The tag with the given number. Numbers without a name are kept.
    pub fn new(value: u8) -> (r: Self)
        ensures
            r.0 == value,
    {
        WhichCache(value)
    }
}

/// A kind of cache operation.
#[derive(Clone, Copy, Debug, PartialEq, Eq, Hash, Structural)]
pub struct CacheOp(pub u8);

impl CacheOp {
    /// Read accesses.
    pub const READ: u8 = 0;

    /// Write accesses.
    pub const WRITE: u8 = 1;

    /// Prefetch accesses.
    pub const PREFETCH: u8 = 2;

    /// The tag with the given number. Numbers without a name are kept.
    pub fn new(value: u8) -> (r: Self)
        ensures
            r.0 == value,
    {
        CacheOp(value)
    }
}

/// Whether all accesses of a cache are counted or its misses only.
#[derive(Clone, Copy, Debug, PartialEq, Eq, Hash, Structural)]
pub struct CacheResult(pub u8);

impl CacheResult {
    /// The cache was accessed.
    pub const ACCESS: u8 = 0;

    /// The access was a miss.
    pub const MISS: u8 = 1;

    /// The tag with the given number. Numbers without a name are kept.
    pub fn new(value: u8) -> (r: Self)
        ensures
            r.0 == value,
    {
        CacheResult(value)
    }
}

/// An event of a cache: which cache, which operation on it, and whether
/// all accesses count or the misses only.
#[derive(Clone, Copy, Debug, PartialEq, Eq, Structural)]
pub struct Cache {
    /// Which cache is observed.
    pub which: WhichCache,
    /// Which operation is observed.
    pub operation: CacheOp,
    /// All accesses, or misses only.
    pub result: CacheResult,
}

impl Cache {
    /// The event number: the cache in bits 0 to 7, the operation in bits 8
    /// to 15, the result in bits 16 to 23.
    pub open spec fn spec_as_config(&self) -> u64 {
        (self.which.0 as u64) | ((self.operation.0 as u64) << 8) | ((self.result.0 as u64) << 16)
    }

    /// The event number of this cache event.
    pub fn as_config(&self) -> (r: u64)
        ensures
            r == self.spec_as_config(),
    {
        (self.which.0 as u64) | ((self.operation.0 as u64) << 8) | ((self.result.0 as u64) << 16)
    }
}

impl Event for Cache {
    open spec fn spec_update_attrs(self, attr: EventAttr) -> EventAttr {
        EventAttr { type_: PERF_TYPE_HW_CACHE, config: self.spec_as_config(), ..attr }
    }

    fn update_attrs(self, attr: &mut EventAttr) {
        attr.type_ = PERF_TYPE_HW_CACHE;
        attr.config = self.as_config();
    }
}

/// The memory accesses on which a data breakpoint triggers.
#[derive(Clone, Copy, Debug, PartialEq, Eq, Hash, Structural)]
pub struct BreakpointAccess {
    pub bits: u32,
}

impl BreakpointAccess {
    /// Reads of the location.
    pub const READ: u32 = 0x1;

    /// Writes of the location.
    pub const WRITE: u32 = 0x2;

    /// Reads and writes of the location.
    pub const READ_WRITE: u32 = 0x3;

    /// A set with exactly the given bits. Bits without a name are kept.
    pub fn new(bits: u32) -> (r: Self)
        ensures
            r.bits == bits,
    {
        BreakpointAccess { bits }
    }

    /// The underlying bits.
    pub fn bits(&self) -> (r: u32)
        ensures
            r == self.bits,
    {
        self.bits
    }

    /// Whether every bit of `flags` is set.
    #[verifier::allow_in_spec]
    pub fn contains(&self, flags: u32) -> bool
        returns
            self.bits & flags == flags,
    {
        self.bits & flags == flags
    }
}

/// A hardware breakpoint.
#[derive(Clone, Copy, Debug, PartialEq, Eq, Structural)]
pub enum Breakpoint {
    /// Triggers when the memory at `addr` is read or written.
    Data {
        /// The accesses on which the breakpoint triggers.
        access: BreakpointAccess,
        /// The address of the memory that is watched.
        addr: u64,
        /// How many bytes are watched: 1, 2, 4 or 8.
        len: u64,
    },
    /// Triggers when the instruction at `addr` is executed.
    Code {
        /// The address of the instruction.
        addr: u64,
    },
}

impl Breakpoint {
    /// A breakpoint that counts how often the instruction at `addr` is
    /// executed.
    pub fn execute(addr: u64) -> (r: Self)
        ensures
            r == (Breakpoint::Code { addr }),
    {
        Breakpoint::Code { addr }
    }

    /// A breakpoint that counts the reads of the `len` bytes at `addr`.
    pub fn read(addr: u64, len: u64) -> (r: Self)
        ensures
            r == (Breakpoint::Data {
                access: BreakpointAccess { bits: BreakpointAccess::READ },
                addr,
                len,
            }),
    {
        Breakpoint::Data { access: BreakpointAccess::new(BreakpointAccess::READ), addr, len }
    }

    /// A breakpoint that counts the writes of the `len` bytes at `addr`.
    pub fn write(addr: u64, len: u64) -> (r: Self)
        ensures
            r == (Breakpoint::Data {
                access: BreakpointAccess { bits: BreakpointAccess::WRITE },
                addr,
                len,
            }),
    {
        Breakpoint::Data { access: BreakpointAccess::new(BreakpointAccess::WRITE), addr, len }
    }

    /// A breakpoint that counts the reads and writes of the `len` bytes at
    /// `addr`.
    pub fn read_write(addr: u64, len: u64) -> (r: Self)
        ensures
            r == (Breakpoint::Data {
                access: BreakpointAccess { bits: BreakpointAccess::READ_WRITE },
                addr,
                len,
            }),
    {
        Breakpoint::Data { access: BreakpointAccess::new(BreakpointAccess::READ_WRITE), addr, len }
    }

    /// Fills in the fields of `attr` that select this breakpoint. An
    /// execution breakpoint takes `long_size`, the size of a `long` on the
    /// machine, as its length.
    pub fn update_attrs_with(self, attr: &mut EventAttr, long_size: u64)
        ensures
            *final(attr) == match self {
                Breakpoint::Data { access, addr, len } => EventAttr {
                    type_: PERF_TYPE_BREAKPOINT,
                    config: 0,
                    bp_type: access.bits,
                    config1: addr,
                    config2: len,
                },
                Breakpoint::Code { addr } => EventAttr {
                    type_: PERF_TYPE_BREAKPOINT,
                    config: 0,
                    bp_type: HW_BREAKPOINT_X,
                    config1: addr,
                    config2: long_size,
                },
            },
    {
        attr.type_ = PERF_TYPE_BREAKPOINT;
        attr.config = 0;
        match self {
            Breakpoint::Data { access, addr, len } => {
                attr.bp_type = access.bits;
                attr.config1 = addr;
                attr.config2 = len;
            },
            Breakpoint::Code { addr } => {
                attr.bp_type = HW_BREAKPOINT_X;
                attr.config1 = addr;
                attr.config2 = long_size;
            },
        }
    }
}

} // verus!
