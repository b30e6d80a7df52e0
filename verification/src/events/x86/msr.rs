use crate::events::{Event, EventAttr};
use vstd::prelude::*;

verus! {

/// The model-specific registers that the `msr` PMU of Linux knows. Which of
/// them a machine has depends on its processor.
#[derive(Clone, Copy, Debug, PartialEq, Eq, Hash, Structural)]
pub struct MsrId(pub u64);

impl MsrId {
    /// Time stamp counter.
    pub const TSC: u64 = 0x0;

    /// Actual performance frequency clock count.
    pub const APERF: u64 = 0x1;

    /// Maximum performance frequency clock count.
    pub const MPERF: u64 = 0x2;

    /// Productive performance count.
    pub const PPERF: u64 = 0x3;

    /// Count of system management interrupts.
    pub const SMI: u64 = 0x4;

    /// Performance time stamp counter.
    pub const PTSC: u64 = 0x5;

    /// Count of instructions retired.
    pub const IRPERF: u64 = 0x6;

    /// Thermal status.
    pub const THERM: u64 = 0x7;

    /// The tag with the given number. Numbers without a name are kept.
    pub fn new(value: u64) -> (r: Self)
        ensures
            r.0 == value,
    {
        MsrId(value)
    }
}

/// An event that reads one of the model-specific registers of an x86 CPU.
#[derive(Clone, Copy, Debug, PartialEq, Eq, Structural)]
pub struct Msr {
    pub ty: u32,
    pub id: MsrId,
}

impl Msr {
    /// The event for the register `id` of the `msr` PMU, whose kind, as
    /// the kernel assigned it, is `ty`.
    pub fn new(ty: u32, id: MsrId) -> (r: Self)
        ensures
            r == (Msr { ty, id }),
    {
        Msr { ty, id }
    }
}

impl Event for Msr {
    open spec fn spec_update_attrs(self, attr: EventAttr) -> EventAttr {
        EventAttr { type_: self.ty, config: self.id.0, ..attr }
    }

    fn update_attrs(self, attr: &mut EventAttr) {
        attr.type_ = self.ty;
        attr.config = self.id.0;
    }
}

} // verus!
