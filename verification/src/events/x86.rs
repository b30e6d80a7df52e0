//! Events that only x86 processors have.

pub mod msr;
