use crate::buffer::{ByteBuffer, ParseError};
use crate::decode::{trim_nuls, u64_at};
use crate::samples::config::ParseConfig;
use vstd::prelude::*;

verus! {

/// A cgroup was created and activated (`PERF_RECORD_CGROUP`).
#[derive(Clone, Debug)]
pub struct Cgroup {
    /// The id of the cgroup.
    pub id: u64,
    /// The path of the cgroup from the root.
    pub path: Vec<u8>,
}

/// A [`Cgroup`] with its bytes as a sequence.
pub struct CgroupView {
    pub id: u64,
    pub path: Seq<u8>,
}

impl View for Cgroup {
    type V = CgroupView;

    open spec fn view(&self) -> CgroupView {
        CgroupView {
            id: self.id,
            path: self.path@,
        }
    }
}

impl Cgroup {
    /// The record at the front of `s` and the bytes after it, or `None` when
    /// `s` is too short.
    pub open spec fn spec_parse(s: Seq<u8>) -> Option<(CgroupView, Seq<u8>)> {
        if s.len() >= 8 {
            Some(
                (
                    CgroupView {
                        id: u64_at(s, 0),
                        path: trim_nuls(s.skip(8)),
                    },
                    Seq::empty(),
                ),
            )
        } else {
            None
        }
    }

    /// Decodes the record at the front of `buf`.
    ///
    /// The record takes all of `buf`: what follows its fixed fields is the
    /// zero-padded `path`.
    pub fn parse(config: &ParseConfig, buf: &mut ByteBuffer) -> (r: Result<Cgroup, ParseError>)
        ensures
            match r {
                Ok(v) => Cgroup::spec_parse(old(buf)@) == Some((v@, final(buf)@)),
                Err(e) => e == ParseError::Eof && Cgroup::spec_parse(old(buf)@) is None,
            },
    {
        let id = buf.parse_u64()?;
        assert(buf@ =~= old(buf)@.skip(8));
        let path = buf.parse_string();
        assert(buf@ =~= Seq::<u8>::empty());
        Ok(Cgroup { id, path })
    }
}

} // verus!
