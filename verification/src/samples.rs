//! The records that the kernel writes into the ring buffer, and their
//! decoders.

pub mod aux;
pub mod aux_output_hw_id;
pub mod bits;
pub mod bpf_event;
pub mod branch;
pub mod cgroup;
pub mod comm;
pub mod config;
pub mod data_source;
pub mod exit;
pub mod fork;
pub mod itrace_start;
pub mod ksymbol;
pub mod lost;
pub mod lost_samples;
pub mod mmap;
pub mod mmap2;
pub mod namespaces;
pub mod read;
pub mod read_value;
pub mod record;
pub mod registers;
pub mod sample;
pub mod sample_id;
pub mod switch_cpu_wide;
pub mod text_poke;
pub mod throttle;

pub use crate::samples::aux::{Aux, AuxFlags, AuxPmuFormatType};
pub use crate::samples::aux_output_hw_id::AuxOutputHwId;
pub use crate::samples::bits::{
    ReadFormat, RecordCpuMode, RecordMiscFlags, RecordType, SampleRegsAbi, SampleType,
};
pub use crate::samples::bpf_event::{BpfEvent, BpfEventType};
pub use crate::samples::branch::{BranchEntry, BranchType};
pub use crate::samples::cgroup::Cgroup;
pub use crate::samples::comm::Comm;
pub use crate::samples::config::ParseConfig;
pub use crate::samples::data_source::{
    DataSource, MemDtlb, MemLevel, MemLevelNum, MemLock, MemOp, MemSnoop, MemSnoopX, Txn,
};
pub use crate::samples::exit::Exit;
pub use crate::samples::fork::Fork;
pub use crate::samples::itrace_start::ITraceStart;
pub use crate::samples::ksymbol::{KSymbol, KSymbolFlags, KSymbolType};
pub use crate::samples::lost::Lost;
pub use crate::samples::lost_samples::LostSamples;
pub use crate::samples::mmap::Mmap;
pub use crate::samples::mmap2::Mmap2;
pub use crate::samples::namespaces::{NamespaceEntry, Namespaces};
pub use crate::samples::read::Read;
pub use crate::samples::read_value::{CounterValue, GroupValue, GroupValueEntry, ReadValue};
pub use crate::samples::record::{Record, RecordEvent, RecordHeader};
pub use crate::samples::registers::{
    Arm64RegMask, PowerPCRegMask, RegMask, Registers, RiscvRegMask, S390RegMask, X86RegMask,
};
pub use crate::samples::sample::Sample;
pub use crate::samples::sample_id::SampleId;
pub use crate::samples::switch_cpu_wide::SwitchCpuWide;
pub use crate::samples::text_poke::TextPoke;
pub use crate::samples::throttle::Throttle;
