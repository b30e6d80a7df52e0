//! The kind of a PMU, kept once it has been read.

use crate::events::text::{parse_u32, spec_parse_u32, spec_trim_end, trim_end, IntError};
use vstd::prelude::*;
use vstd::string::StringSliceAdditionalSpecFns;

verus! {

/// Remembers the kind of a PMU.
///
/// The kernel gives every PMU a number when it registers it, and lists the
/// number in the `type` file of the PMU. The number does not change, so it
/// is read once. No PMU of this sort has the number 0, which stands for
/// "not read yet".
#[derive(Clone, Copy, Debug)]
pub struct CachedPmuType {
    name: &'static str,
    value: u32,
}

impl CachedPmuType {
    /// The kind that is remembered, if one is.
    pub closed spec fn cached(&self) -> Option<u32> {
        if self.value == 0 {
            None
        } else {
            Some(self.value)
        }
    }

    /// The name of the PMU.
    pub closed spec fn spec_name(&self) -> &'static str {
        self.name
    }

    /// A cache for the PMU `pmu` that remembers nothing yet.
    pub fn new(pmu: &'static str) -> (r: Self)
        ensures
            r.cached() is None,
            r.spec_name() == pmu,
    {
        CachedPmuType { name: pmu, value: 0 }
    }

    /// The name of the PMU.
    pub fn name(&self) -> (r: &'static str)
        ensures
            r == self.spec_name(),
    {
        self.name
    }

    /// The kind that is remembered: `None` tells the caller to read the
    /// `type` file and hand its contents to [`read`](Self::read).
    pub fn get(&self) -> (r: Option<u32>)
        ensures
            r == self.cached(),
    {
        if self.value == 0 {
            None
        } else {
            Some(self.value)
        }
    }

    /// Takes the kind from the contents of the `type` file, a decimal
    /// number with white space after it, and remembers it. Contents that
    /// are no such number leave the cache as it was.
    pub fn read(&mut self, contents: &str) -> (r: Result<u32, IntError>)
        ensures
            final(self).spec_name() == old(self).spec_name(),
            r == spec_parse_u32(spec_trim_end(contents.spec_bytes())),
            final(self).cached() == match r {
                Ok(ty) => if ty == 0 {
                    None
                } else {
                    Some(ty)
                },
                Err(_) => old(self).cached(),
            },
    {
        let ty = parse_u32(trim_end(contents.as_bytes()))?;
        self.value = ty;
        Ok(ty)
    }
}

} // verus!
