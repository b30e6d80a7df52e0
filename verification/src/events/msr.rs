use crate::events::{Event, EventAttr};
use vstd::prelude::*;

verus! {

/// The model-specific registers that every x86 processor has.
#[derive(Clone, Copy, Debug, PartialEq, Eq, Hash, Structural)]
pub struct MSRConfig(pub u64);

impl MSRConfig {
    /// Time stamp counter; it runs at the base frequency of the CPU.
    pub const TSC: u64 = 0x0;

    /// Actual performance frequency clock count.
    pub const APERF: u64 = 0x1;

    /// Maximum performance frequency clock count.
    pub const MPERF: u64 = 0x2;

    /// The tag with the given number. Numbers without a name are kept.
    pub fn new(value: u64) -> (r: Self)
        ensures
            r.0 == value,
    {
        MSRConfig(value)
    }
}

/// An event that reads a model-specific register of the CPU.
///
/// The kind of the event is not fixed: the kernel assigns it to the `msr`
/// PMU when it registers it, and `ty` is that number.
#[derive(Clone, Copy, Debug, PartialEq, Eq, Structural)]
pub struct MSREvent {
    pub ty: u32,
    pub config: MSRConfig,
}

impl MSREvent {
    /// The event for the register `config` of the PMU whose kind is `ty`.
    pub fn with_type(ty: u32, config: MSRConfig) -> (r: Self)
        ensures
            r == (MSREvent { ty, config }),
    {
        MSREvent { ty, config }
    }
}

impl Event for MSREvent {
    open spec fn spec_update_attrs(self, attr: EventAttr) -> EventAttr {
        EventAttr { type_: self.ty, config: self.config.0, ..attr }
    }

    fn update_attrs(self, attr: &mut EventAttr) {
        attr.type_ = self.ty;
        attr.config = self.config.0;
    }
}

} // verus!
