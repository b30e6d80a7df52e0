//! The settings of a counter on which the layout of its records depends.

use crate::flags::SampleBranchFlag;
use crate::samples::bits::{ReadFormat, SampleType};
use vstd::prelude::*;

verus! {

/// Everything a decoder has to know about the counter that produced a
/// record. It is taken once, when sampling starts, and never changes.
#[derive(Clone, Copy, Debug, PartialEq, Eq, Structural)]
pub struct ParseConfig {
    /// Which fields a sample holds.
    pub sample_type: SampleType,
    /// What a counter value is reported with.
    pub read_format: ReadFormat,
    /// Whether every record ends in a block that identifies its source.
    pub sample_id_all: bool,
    /// The user-space registers captured with a sample, one bit each.
    pub regs_user: u64,
    /// The registers captured at interrupt time, one bit each.
    pub regs_intr: u64,
    /// Which branches a branch record holds.
    pub branch_sample_type: SampleBranchFlag,
}

impl ParseConfig {
    /// A configuration made of the raw attribute values of a counter.
    pub fn new(
        sample_type: u64,
        read_format: u64,
        sample_id_all: bool,
        regs_user: u64,
        regs_intr: u64,
        branch_sample_type: u64,
    ) -> (r: Self)
        ensures
            r.sample_type.bits == sample_type,
            r.read_format.bits == read_format,
            r.sample_id_all == sample_id_all,
            r.regs_user == regs_user,
            r.regs_intr == regs_intr,
            r.branch_sample_type.bits == branch_sample_type,
    {
        ParseConfig {
            sample_type: SampleType::new(sample_type),
            read_format: ReadFormat::new(read_format),
            sample_id_all,
            regs_user,
            regs_intr,
            branch_sample_type: SampleBranchFlag::new(branch_sample_type),
        }
    }
}

impl Default for ParseConfig {
    /// The configuration of a counter that samples nothing.
    fn default() -> (r: Self)
        ensures
            r.sample_type.bits == 0,
            r.read_format.bits == 0,
            !r.sample_id_all,
            r.regs_user == 0,
            r.regs_intr == 0,
            r.branch_sample_type.bits == 0,
    {
        ParseConfig::new(0, 0, false, 0, 0, 0)
    }
}

} // verus!
