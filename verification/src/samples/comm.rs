use crate::buffer::{ByteBuffer, ParseError};
use crate::decode::{trim_nuls, u32_at};
use crate::samples::config::ParseConfig;
use vstd::prelude::*;

verus! {

/// The name of a process has changed (`PERF_RECORD_COMM`).
#[derive(Clone, Debug)]
pub struct Comm {
    pub pid: u32,
    pub tid: u32,
    /// The new name.
    pub comm: Vec<u8>,
}

/// A [`Comm`] with its bytes as a sequence.
pub struct CommView {
    pub pid: u32,
    pub tid: u32,
    pub comm: Seq<u8>,
}

impl View for Comm {
    type V = CommView;

    open spec fn view(&self) -> CommView {
        CommView {
            pid: self.pid,
            tid: self.tid,
            comm: self.comm@,
        }
    }
}

impl Comm {
    /// The record at the front of `s` and the bytes after it, or `None` when
    /// `s` is too short.
    pub open spec fn spec_parse(s: Seq<u8>) -> Option<(CommView, Seq<u8>)> {
        if s.len() >= 8 {
            Some(
                (
                    CommView {
                        pid: u32_at(s, 0),
                        tid: u32_at(s, 4),
                        comm: trim_nuls(s.skip(8)),
                    },
                    Seq::empty(),
                ),
            )
        } else {
            None
        }
    }

    /// Decodes the record at the front of `buf`.
    ///
    /// The record takes all of `buf`: what follows its fixed fields is the
    /// zero-padded `comm`.
    pub fn parse(config: &ParseConfig, buf: &mut ByteBuffer) -> (r: Result<Comm, ParseError>)
        ensures
            match r {
                Ok(v) => Comm::spec_parse(old(buf)@) == Some((v@, final(buf)@)),
                Err(e) => e == ParseError::Eof && Comm::spec_parse(old(buf)@) is None,
            },
    {
        let pid = buf.parse_u32()?;
        let tid = buf.parse_u32()?;
        assert(buf@ =~= old(buf)@.skip(8));
        let comm = buf.parse_string();
        assert(buf@ =~= Seq::<u8>::empty());
        Ok(Comm { pid, tid, comm })
    }
}

} // verus!
