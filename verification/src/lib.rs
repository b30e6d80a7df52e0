//! Reading what the Linux performance-counter interface records.
//!
//! A counter that samples writes records into a ring buffer that it shares
//! with the kernel. This library holds everything about those records that
//! is computation: which bytes of the ring are unread ([`sampler`]), how
//! the bytes of one record are walked ([`buffer`], [`decode`]), and what
//! they mean ([`samples`]). It also holds the descriptions of the events
//! that a counter can count ([`events`]) and the layout of the values of a
//! group of counters ([`group`]).
//!
//! The library makes no system call and touches no memory but the slices it
//! is handed. Opening a counter, mapping its ring buffer and loading and
//! storing the two positions of the ring are left to the caller.

pub mod buffer;
pub mod decode;
pub mod events;
pub mod flags;
pub mod group;
pub mod sampler;
pub mod samples;

pub use crate::buffer::{ByteBuffer, ParseError};
pub use crate::flags::{SampleBranchFlag, SampleSkid};
pub use crate::group::{GroupData, GroupEntry, GroupIter};
pub use crate::sampler::{PmcReadData, UserReadData};
pub use crate::samples::bits::{ReadFormat, SampleType};
