use crate::buffer::{ByteBuffer, ParseError};
use crate::decode::{u32_at, u64_at};
use crate::samples::config::ParseConfig;
use vstd::prelude::*;

verus! {

/// One namespace of a process.
#[derive(Clone, Copy, Debug, PartialEq, Eq, Hash, Structural)]
pub struct NamespaceEntry {
    pub dev: u64,
    pub inode: u64,
}

/// The namespaces of a process (`PERF_RECORD_NAMESPACES`).
#[derive(Clone, Debug)]
pub struct Namespaces {
    /// Process id.
    pub pid: u32,
    /// Thread id.
    pub tid: u32,
    /// One entry for each kind of namespace, at an index that the kernel
    /// fixes for the kind.
    pub namespaces: Vec<NamespaceEntry>,
}

/// A [`Namespaces`] with its entries as a sequence.
pub struct NamespacesView {
    pub pid: u32,
    pub tid: u32,
    pub namespaces: Seq<NamespaceEntry>,
}

impl View for Namespaces {
    type V = NamespacesView;

    open spec fn view(&self) -> NamespacesView {
        NamespacesView { pid: self.pid, tid: self.tid, namespaces: self.namespaces@ }
    }
}

impl NamespaceEntry {
    /// The entry whose 16 bytes start at index `i` of `s`.
    pub open spec fn at(s: Seq<u8>, i: int) -> NamespaceEntry {
        NamespaceEntry { dev: u64_at(s, i), inode: u64_at(s, i + 8) }
    }

    /// The entry at the front of `s` and the bytes after it, or `None` when
    /// `s` is too short.
    pub open spec fn spec_parse(s: Seq<u8>) -> Option<(NamespaceEntry, Seq<u8>)> {
        if s.len() >= 16 {
            Some((NamespaceEntry::at(s, 0), s.skip(16)))
        } else {
            None
        }
    }

    /// Decodes the entry at the front of `buf`.
    pub fn parse(config: &ParseConfig, buf: &mut ByteBuffer) -> (r: Result<
        NamespaceEntry,
        ParseError,
    >)
        ensures
            match r {
                Ok(v) => NamespaceEntry::spec_parse(old(buf)@) == Some((v, final(buf)@)),
                Err(e) => e == ParseError::Eof && NamespaceEntry::spec_parse(old(buf)@) is None,
            },
    {
        let dev = buf.parse_u64()?;
        let inode = buf.parse_u64()?;
        assert(buf@ =~= old(buf)@.skip(16));
        Ok(NamespaceEntry { dev, inode })
    }
}

impl Namespaces {
    /// Index of the network namespace.
    pub const NET_NS_INDEX: usize = 0;

    /// Index of the UTS namespace.
    pub const UTS_NS_INDEX: usize = 1;

    /// Index of the IPC namespace.
    pub const IPC_NS_INDEX: usize = 2;

    /// Index of the PID namespace.
    pub const PID_NS_INDEX: usize = 3;

    /// Index of the user namespace.
    pub const USER_NS_INDEX: usize = 4;

    /// Index of the mount namespace.
    pub const MNT_NS_INDEX: usize = 5;

    /// Index of the cgroup namespace.
    pub const CGROUP_NS_INDEX: usize = 6;

    /// The record at the front of `s` and the bytes after it: two ids, a
    /// 64-bit count, and that many entries of 16 bytes.
    pub open spec fn spec_parse(s: Seq<u8>) -> Option<(NamespacesView, Seq<u8>)> {
        if s.len() >= 16 && s.len() >= 16 + 16 * u64_at(s, 8) {
            let n = u64_at(s, 8) as nat;
            Some(
                (
                    NamespacesView {
                        pid: u32_at(s, 0),
                        tid: u32_at(s, 4),
                        namespaces: Seq::new(n, |k: int| NamespaceEntry::at(s, 16 + 16 * k)),
                    },
                    s.skip(16 + 16 * u64_at(s, 8)),
                ),
            )
        } else {
            None
        }
    }

    /// Decodes the record at the front of `buf`.
    pub fn parse(config: &ParseConfig, buf: &mut ByteBuffer) -> (r: Result<Namespaces, ParseError>)
        ensures
            match r {
                Ok(v) => Namespaces::spec_parse(old(buf)@) == Some((v@, final(buf)@)),
                Err(e) => e == ParseError::Eof && Namespaces::spec_parse(old(buf)@) is None,
            },
    {
        let ghost s = buf@;
        let pid = buf.parse_u32()?;
        let tid = buf.parse_u32()?;
        let len = buf.parse_u64()?;
        let mut namespaces: Vec<NamespaceEntry> = Vec::new();
        let mut i: u64 = 0;
        assert(buf@ =~= s.skip(16));
        while i < len
            invariant
                i <= len,
                s == old(buf)@,
                len == u64_at(s, 8),
                s.len() >= 16 + 16 * i,
                buf@ == s.skip(16 + 16 * i),
                namespaces@ == Seq::new(i as nat, |k: int| NamespaceEntry::at(s, 16 + 16 * k)),
            decreases len - i,
        {
            let entry = NamespaceEntry::parse(config, buf)?;
            namespaces.push(entry);
            i += 1;
            proof {
                assert(buf@ =~= s.skip(16 + 16 * i));
                assert(namespaces@ =~= Seq::new(
                    i as nat,
                    |k: int| NamespaceEntry::at(s, 16 + 16 * k),
                ));
            }
        }
        Ok(Namespaces { pid, tid, namespaces })
    }

    /// The entry at `index`, if the record has that many.
    fn entry(&self, index: usize) -> (r: Option<NamespaceEntry>)
        ensures
            r == if index < self.namespaces@.len() {
                Some(self.namespaces@[index as int])
            } else {
                None
            },
    {
        if index < self.namespaces.len() {
            Some(self.namespaces[index])
        } else {
            None
        }
    }

    /// Network namespace: the entry at index 0.
    pub fn network(&self) -> (r: Option<NamespaceEntry>)
        ensures
            r == if 0 < self.namespaces@.len() {
                Some(self.namespaces@[0])
            } else {
                None
            },
    {
        self.entry(Namespaces::NET_NS_INDEX)
    }

    /// UTS namespace: the entry at index 1.
    pub fn uts(&self) -> (r: Option<NamespaceEntry>)
        ensures
            r == if 1 < self.namespaces@.len() {
                Some(self.namespaces@[1])
            } else {
                None
            },
    {
        self.entry(Namespaces::UTS_NS_INDEX)
    }

    /// IPC namespace: the entry at index 2.
    pub fn ipc(&self) -> (r: Option<NamespaceEntry>)
        ensures
            r == if 2 < self.namespaces@.len() {
                Some(self.namespaces@[2])
            } else {
                None
            },
    {
        self.entry(Namespaces::IPC_NS_INDEX)
    }

    /// PID namespace: the entry at index 3.
    pub fn pid(&self) -> (r: Option<NamespaceEntry>)
        ensures
            r == if 3 < self.namespaces@.len() {
                Some(self.namespaces@[3])
            } else {
                None
            },
    {
        self.entry(Namespaces::PID_NS_INDEX)
    }

    /// User namespace: the entry at index 4.
    pub fn user(&self) -> (r: Option<NamespaceEntry>)
        ensures
            r == if 4 < self.namespaces@.len() {
                Some(self.namespaces@[4])
            } else {
                None
            },
    {
        self.entry(Namespaces::USER_NS_INDEX)
    }

    /// Cgroup namespace: the entry at index 6.
    pub fn cgroup(&self) -> (r: Option<NamespaceEntry>)
        ensures
            r == if 6 < self.namespaces@.len() {
                Some(self.namespaces@[6])
            } else {
                None
            },
    {
        self.entry(Namespaces::CGROUP_NS_INDEX)
    }
}

} // verus!
