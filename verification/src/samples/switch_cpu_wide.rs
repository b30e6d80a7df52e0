use crate::buffer::{ByteBuffer, ParseError};
use crate::decode::u32_at;
use crate::samples::bits::RecordMiscFlags;
use vstd::prelude::*;

verus! {

/// A context switch seen while profiling a whole CPU
/// (`PERF_RECORD_SWITCH_CPU_WIDE`).
#[derive(Clone, Copy, Debug, PartialEq, Eq, Structural)]
pub enum SwitchCpuWide {
    /// A thread was switched in.
    SwitchIn {
        /// The process id of the thread that comes in.
        next_pid: u32,
        /// The thread id of the thread that comes in.
        next_tid: u32,
    },
    /// A thread was switched out.
    SwitchOut {
        /// The process id of the thread that goes out.
        prev_pid: u32,
        /// The thread id of the thread that goes out.
        prev_tid: u32,
    },
}

impl SwitchCpuWide {
    /// The process id of the thread that comes in or goes out.
    pub open spec fn spec_pid(&self) -> u32 {
        match *self {
            SwitchCpuWide::SwitchIn { next_pid, .. } => next_pid,
            SwitchCpuWide::SwitchOut { prev_pid, .. } => prev_pid,
        }
    }

    /// The thread id of the thread that comes in or goes out.
    pub open spec fn spec_tid(&self) -> u32 {
        match *self {
            SwitchCpuWide::SwitchIn { next_tid, .. } => next_tid,
            SwitchCpuWide::SwitchOut { prev_tid, .. } => prev_tid,
        }
    }

    /// The process id of the thread that comes in or goes out.
    pub fn pid(&self) -> (r: u32)
        ensures
            r == self.spec_pid(),
    {
        match *self {
            SwitchCpuWide::SwitchIn { next_pid, .. } => next_pid,
            SwitchCpuWide::SwitchOut { prev_pid, .. } => prev_pid,
        }
    }

    /// The thread id of the thread that comes in or goes out.
    pub fn tid(&self) -> (r: u32)
        ensures
            r == self.spec_tid(),
    {
        match *self {
            SwitchCpuWide::SwitchIn { next_tid, .. } => next_tid,
            SwitchCpuWide::SwitchOut { prev_tid, .. } => prev_tid,
        }
    }

    /// The record at the front of `s` and the bytes after it. The
    /// `SWITCH_OUT` bit of `misc` tells a switch out from a switch in.
    pub open spec fn spec_parse(misc: RecordMiscFlags, s: Seq<u8>) -> Option<
        (SwitchCpuWide, Seq<u8>),
    > {
        if s.len() >= 8 {
            Some(
                (
                    if misc.contains(RecordMiscFlags::SWITCH_OUT) {
                        SwitchCpuWide::SwitchOut { prev_pid: u32_at(s, 0), prev_tid: u32_at(s, 4) }
                    } else {
                        SwitchCpuWide::SwitchIn { next_pid: u32_at(s, 0), next_tid: u32_at(s, 4) }
                    },
                    s.skip(8),
                ),
            )
        } else {
            None
        }
    }

    /// Decodes the record at the front of `buf`.
    pub fn parse(misc: RecordMiscFlags, buf: &mut ByteBuffer) -> (r: Result<
        SwitchCpuWide,
        ParseError,
    >)
        ensures
            match r {
                Ok(v) => SwitchCpuWide::spec_parse(misc, old(buf)@) == Some((v, final(buf)@)),
                Err(e) => e == ParseError::Eof && SwitchCpuWide::spec_parse(misc, old(buf)@)
                    is None,
            },
    {
        let pid = buf.parse_u32()?;
        let tid = buf.parse_u32()?;
        assert(buf@ =~= old(buf)@.skip(8));
        if misc.contains(RecordMiscFlags::SWITCH_OUT) {
            Ok(SwitchCpuWide::SwitchOut { prev_pid: pid, prev_tid: tid })
        } else {
            Ok(SwitchCpuWide::SwitchIn { next_pid: pid, next_tid: tid })
        }
    }
}

} // verus!
