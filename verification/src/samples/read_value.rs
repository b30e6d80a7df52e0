//! Counter values as they appear inside `Read` and `Sample` records.

use crate::buffer::{ByteBuffer, ParseError};
use crate::decode::{take_u64, u64_at, Cursor};
use crate::samples::bits::ReadFormat;
use crate::samples::config::ParseConfig;
use vstd::prelude::*;

verus! {

/// The value of one counter, with what the read format adds to it.
#[derive(Clone, Copy, Debug, PartialEq, Eq, Structural)]
pub struct CounterValue {
    /// The value of the counter.
    pub value: u64,
    /// For how many nanoseconds the counter was enabled.
    pub time_enabled: Option<u64>,
    /// For how many nanoseconds the counter was enabled and counting.
    pub time_running: Option<u64>,
    /// The id of the counter.
    pub id: Option<u64>,
}

/// The value of one counter of a group.
#[derive(Clone, Copy, Debug, PartialEq, Eq, Structural)]
pub struct GroupValueEntry {
    /// The value of the counter.
    pub value: u64,
    /// The id of the counter.
    pub id: Option<u64>,
}

/// The values of all counters of a group.
#[derive(Clone, Debug)]
pub struct GroupValue {
    /// For how many nanoseconds the group was enabled.
    pub time_enabled: Option<u64>,
    /// For how many nanoseconds the group was enabled and counting.
    pub time_running: Option<u64>,
    /// One entry for each counter of the group.
    pub values: Vec<GroupValueEntry>,
}

/// A [`GroupValue`] with its entries as a sequence.
pub struct GroupValueView {
    pub time_enabled: Option<u64>,
    pub time_running: Option<u64>,
    pub values: Seq<GroupValueEntry>,
}

impl View for GroupValue {
    type V = GroupValueView;

    open spec fn view(&self) -> GroupValueView {
        GroupValueView {
            time_enabled: self.time_enabled,
            time_running: self.time_running,
            values: self.values@,
        }
    }
}

/// What a counter reports: its own value, or the values of its group.
#[derive(Clone, Debug)]
pub enum ReadValue {
    Counter(CounterValue),
    Group(GroupValue),
}

/// A [`ReadValue`] with the entries of a group as a sequence.
pub enum ReadValueView {
    Counter(CounterValue),
    Group(GroupValueView),
}

impl View for ReadValue {
    type V = ReadValueView;

    open spec fn view(&self) -> ReadValueView {
        match *self {
            ReadValue::Counter(v) => ReadValueView::Counter(v),
            ReadValue::Group(v) => ReadValueView::Group(v@),
        }
    }
}

impl CounterValue {
    /// The value at the front of `s` and the bytes after it: the count, then
    /// the enabled time, the running time and the id, each only where the
    /// read format asks for it.
    #[verifier::opaque]
    pub open spec fn spec_parse(config: ParseConfig, s: Seq<u8>) -> Option<
        (CounterValue, Seq<u8>),
    > {
        let rf = config.read_format;
        let c = Cursor::start(s);
        let (value, c) = c.field(true, take_u64(c.rest));
        let (time_enabled, c) = c.field(
            rf.contains(ReadFormat::TOTAL_TIME_ENABLED),
            take_u64(c.rest),
        );
        let (time_running, c) = c.field(
            rf.contains(ReadFormat::TOTAL_TIME_RUNNING),
            take_u64(c.rest),
        );
        let (id, c) = c.field(rf.contains(ReadFormat::ID), take_u64(c.rest));
        if c.ok {
            Some((CounterValue { value: value.unwrap(), time_enabled, time_running, id }, c.rest))
        } else {
            None
        }
    }

    /// Decodes the value at the front of `buf`.
    pub fn parse(config: &ParseConfig, buf: &mut ByteBuffer) -> (r: Result<
        CounterValue,
        ParseError,
    >)
        ensures
            match r {
                Ok(v) => CounterValue::spec_parse(*config, old(buf)@) == Some((v, final(buf)@)),
                Err(e) => e == ParseError::Eof && CounterValue::spec_parse(*config, old(buf)@)
                    is None,
            },
    {
        reveal(CounterValue::spec_parse);
        let rf = config.read_format;
        let value = buf.parse_u64()?;
        let time_enabled = if rf.contains(ReadFormat::TOTAL_TIME_ENABLED) {
            Some(buf.parse_u64()?)
        } else {
            None
        };
        let time_running = if rf.contains(ReadFormat::TOTAL_TIME_RUNNING) {
            Some(buf.parse_u64()?)
        } else {
            None
        };
        let id = if rf.contains(ReadFormat::ID) {
            Some(buf.parse_u64()?)
        } else {
            None
        };
        Ok(CounterValue { value, time_enabled, time_running, id })
    }
}

/// With the enabled time, the running time and the id all asked for, a
/// counter value is four 64-bit integers in a row: the count, the enabled
/// time, the running time and the id.
pub proof fn lemma_counter_value_full(config: ParseConfig, s: Seq<u8>)
    requires
        config.read_format.contains(ReadFormat::TOTAL_TIME_ENABLED),
        config.read_format.contains(ReadFormat::TOTAL_TIME_RUNNING),
        config.read_format.contains(ReadFormat::ID),
    ensures
        CounterValue::spec_parse(config, s) == if s.len() >= 32 {
            Some(
                (
                    CounterValue {
                        value: u64_at(s, 0),
                        time_enabled: Some(u64_at(s, 8)),
                        time_running: Some(u64_at(s, 16)),
                        id: Some(u64_at(s, 24)),
                    },
                    s.skip(32),
                ),
            )
        } else {
            None
        },
{
    reveal(CounterValue::spec_parse);
    if s.len() >= 32 {
        assert(s.skip(8).skip(8).skip(8).skip(8) =~= s.skip(32));
    }
}

impl GroupValueEntry {
    /// How many bytes one entry takes: 16 with an id, 8 without.
    pub open spec fn size(config: ParseConfig) -> int {
        if config.read_format.contains(ReadFormat::ID) {
            16
        } else {
            8
        }
    }

    /// The entry whose bytes start at index `i` of `s`.
    pub open spec fn at(config: ParseConfig, s: Seq<u8>, i: int) -> GroupValueEntry {
        GroupValueEntry {
            value: u64_at(s, i),
            id: if config.read_format.contains(ReadFormat::ID) {
                Some(u64_at(s, i + 8))
            } else {
                None
            },
        }
    }

    /// The entry at the front of `s` and the bytes after it.
    pub open spec fn spec_parse(config: ParseConfig, s: Seq<u8>) -> Option<
        (GroupValueEntry, Seq<u8>),
    > {
        if s.len() >= GroupValueEntry::size(config) {
            Some((GroupValueEntry::at(config, s, 0), s.skip(GroupValueEntry::size(config))))
        } else {
            None
        }
    }

    /// `n` entries off the front of `s` and the bytes after them.
    pub open spec fn take_n(config: ParseConfig, s: Seq<u8>, n: nat) -> Option<
        (Seq<GroupValueEntry>, Seq<u8>),
    > {
        let size = GroupValueEntry::size(config);
        if s.len() >= n * size {
            Some((Seq::new(n, |k: int| GroupValueEntry::at(config, s, k * size)), s.skip(n * size)))
        } else {
            None
        }
    }

    /// Decodes the entry at the front of `buf`.
    pub fn parse(config: &ParseConfig, buf: &mut ByteBuffer) -> (r: Result<
        GroupValueEntry,
        ParseError,
    >)
        ensures
            match r {
                Ok(v) => GroupValueEntry::spec_parse(*config, old(buf)@) == Some(
                    (v, final(buf)@),
                ),
                Err(e) => e == ParseError::Eof && GroupValueEntry::spec_parse(*config, old(buf)@)
                    is None,
            },
    {
        let value = buf.parse_u64()?;
        let id = if config.read_format.contains(ReadFormat::ID) {
            let id = buf.parse_u64()?;
            assert(buf@ =~= old(buf)@.skip(16));
            Some(id)
        } else {
            None
        };
        Ok(GroupValueEntry { value, id })
    }
}

impl GroupValue {
    /// The group value at the front of `s` and the bytes after it: the
    /// number of counters, the enabled and the running time where the read
    /// format asks for them, then one entry for each counter.
    #[verifier::opaque]
    pub open spec fn spec_parse(config: ParseConfig, s: Seq<u8>) -> Option<
        (GroupValueView, Seq<u8>),
    > {
        let rf = config.read_format;
        let c = Cursor::start(s);
        let (len, c) = c.field(true, take_u64(c.rest));
        let (time_enabled, c) = c.field(
            rf.contains(ReadFormat::TOTAL_TIME_ENABLED),
            take_u64(c.rest),
        );
        let (time_running, c) = c.field(
            rf.contains(ReadFormat::TOTAL_TIME_RUNNING),
            take_u64(c.rest),
        );
        let (values, c) = c.field(
            true,
            GroupValueEntry::take_n(config, c.rest, len.unwrap() as nat),
        );
        if c.ok {
            Some((GroupValueView { time_enabled, time_running, values: values.unwrap() }, c.rest))
        } else {
            None
        }
    }

    /// Decodes the group value at the front of `buf`.
    pub fn parse(config: &ParseConfig, buf: &mut ByteBuffer) -> (r: Result<GroupValue, ParseError>)
        ensures
            match r {
                Ok(v) => GroupValue::spec_parse(*config, old(buf)@) == Some((v@, final(buf)@)),
                Err(e) => e == ParseError::Eof && GroupValue::spec_parse(*config, old(buf)@)
                    is None,
            },
    {
        reveal(GroupValue::spec_parse);
        let rf = config.read_format;
        let len = buf.parse_u64()?;
        let time_enabled = if rf.contains(ReadFormat::TOTAL_TIME_ENABLED) {
            Some(buf.parse_u64()?)
        } else {
            None
        };
        let time_running = if rf.contains(ReadFormat::TOTAL_TIME_RUNNING) {
            Some(buf.parse_u64()?)
        } else {
            None
        };
        let ghost s = buf@;
        let ghost size = GroupValueEntry::size(*config);
        let mut values: Vec<GroupValueEntry> = Vec::new();
        let mut i: u64 = 0;
        assert(buf@ =~= s.skip(0 * size));
        while i < len
            invariant
                i <= len,
                size == GroupValueEntry::size(*config),
                s.len() >= i * size,
                buf@ == s.skip(i * size),
                values@ == Seq::new(i as nat, |k: int| GroupValueEntry::at(*config, s, k * size)),
                GroupValue::spec_parse(*config, old(buf)@) == match GroupValueEntry::take_n(
                    *config,
                    s,
                    len as nat,
                ) {
                    Some((v, rest)) => Some(
                        (GroupValueView { time_enabled, time_running, values: v }, rest),
                    ),
                    None => None,
                },
            decreases len - i,
        {
            assert((i + 1) * size == i * size + size) by (nonlinear_arith);
            assert((i + 1) * size <= len * size) by (nonlinear_arith)
                requires
                    i < len,
                    size > 0,
            ;
            let entry = GroupValueEntry::parse(config, buf)?;
            values.push(entry);
            i += 1;
            proof {
                assert(buf@ =~= s.skip(i * size));
                assert(values@ =~= Seq::new(
                    i as nat,
                    |k: int| GroupValueEntry::at(*config, s, k * size),
                ));
            }
        }
        Ok(GroupValue { time_enabled, time_running, values })
    }
}

impl ReadValue {
    /// The value at the front of `s` and the bytes after it: that of a
    /// group where the read format has the `GROUP` bit, of one counter
    /// otherwise.
    #[verifier::opaque]
    pub open spec fn spec_parse(config: ParseConfig, s: Seq<u8>) -> Option<
        (ReadValueView, Seq<u8>),
    > {
        if config.read_format.contains(ReadFormat::GROUP) {
            match GroupValue::spec_parse(config, s) {
                Some((v, rest)) => Some((ReadValueView::Group(v), rest)),
                None => None,
            }
        } else {
            match CounterValue::spec_parse(config, s) {
                Some((v, rest)) => Some((ReadValueView::Counter(v), rest)),
                None => None,
            }
        }
    }

    /// Decodes the value at the front of `buf`.
    pub fn parse(config: &ParseConfig, buf: &mut ByteBuffer) -> (r: Result<ReadValue, ParseError>)
        ensures
            match r {
                Ok(v) => ReadValue::spec_parse(*config, old(buf)@) == Some((v@, final(buf)@)),
                Err(e) => e == ParseError::Eof && ReadValue::spec_parse(*config, old(buf)@)
                    is None,
            },
    {
        reveal(ReadValue::spec_parse);
        if config.read_format.contains(ReadFormat::GROUP) {
            Ok(ReadValue::Group(GroupValue::parse(config, buf)?))
        } else {
            Ok(ReadValue::Counter(CounterValue::parse(config, buf)?))
        }
    }
}

} // verus!
