use crate::events::{Event, EventAttr, PERF_TYPE_RAW};
use vstd::prelude::*;

verus! {

/// An event of the processor given by its raw numbers, as the manual of
/// the processor lists them.
#[derive(Clone, Copy, Debug, PartialEq, Eq, Structural)]
pub struct Raw {
    /// The `config` of the event.
    pub config: u64,
    /// The `config1` of the event.
    pub config1: u64,
    /// The `config2` of the event.
    pub config2: u64,
}

impl Raw {
    /// The raw event with the given `config` and with zero in the other
    /// fields.
    pub fn new(config: u64) -> (r: Self)
        ensures
            r == (Raw { config, config1: 0, config2: 0 }),
    {
        Raw { config, config1: 0, config2: 0 }
    }

    /// The same event with another `config`.
    pub fn config(self, config: u64) -> (r: Self)
        ensures
            r == (Raw { config, ..self }),
    {
        Raw { config, config1: self.config1, config2: self.config2 }
    }

    /// The same event with another `config1`.
    pub fn config1(self, config1: u64) -> (r: Self)
        ensures
            r == (Raw { config1, ..self }),
    {
        Raw { config: self.config, config1, config2: self.config2 }
    }

    /// The same event with another `config2`.
    pub fn config2(self, config2: u64) -> (r: Self)
        ensures
            r == (Raw { config2, ..self }),
    {
        Raw { config: self.config, config1: self.config1, config2 }
    }
}

impl Event for Raw {
    open spec fn spec_update_attrs(self, attr: EventAttr) -> EventAttr {
        EventAttr {
            type_: PERF_TYPE_RAW,
            config: self.config,
            config1: self.config1,
            config2: self.config2,
            ..attr
        }
    }

    fn update_attrs(self, attr: &mut EventAttr) {
        attr.type_ = PERF_TYPE_RAW;
        attr.config = self.config;
        attr.config1 = self.config1;
        attr.config2 = self.config2;
    }
}

} // verus!
