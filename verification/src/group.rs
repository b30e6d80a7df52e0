//! The values of a group of counters as one read of the group gives them.
//!
//! A read fills a buffer of 64-bit words: the number of counters, a prefix
//! of up to two times, and then one element of two or three words for each
//! counter. Which words are there depends on the read format.

use crate::samples::bits::ReadFormat;
use crate::samples::registers::{count_ones, popcount};
use vstd::prelude::*;
use vstd::slice::slice_subrange;

verus! {

/// The bit of the read format that this library sets on the data of a
/// group proper: its first element is the group itself and is passed over
/// when the counters are listed.
pub const SKIP_GROUP: u64 = 0x8000_0000_0000_0000;

impl ReadFormat {
    /// The largest number of words that a read of a single counter gives.
    pub const MAX_NON_GROUP_SIZE: usize = 5;

    /// How many words come before the elements: the count and the times
    /// that the format asks for.
    pub open spec fn spec_prefix_len(&self) -> nat {
        1 + count_ones(
            (self.bits & (ReadFormat::TOTAL_TIME_ENABLED | ReadFormat::TOTAL_TIME_RUNNING)) as nat,
        )
    }

    /// How many words one element takes: the value, and the id and the lost
    /// count where the format asks for them.
    pub open spec fn spec_element_len(&self) -> nat {
        1 + count_ones((self.bits & (ReadFormat::ID | ReadFormat::LOST)) as nat)
    }

    /// How many words come before the elements.
    pub fn prefix_len(&self) -> (r: usize)
        ensures
            r == self.spec_prefix_len(),
            1 <= r <= 65,
    {
        1 + popcount(
            self.bits & (ReadFormat::TOTAL_TIME_ENABLED | ReadFormat::TOTAL_TIME_RUNNING),
        ) as usize
    }

    /// How many words one element takes.
    pub fn element_len(&self) -> (r: usize)
        ensures
            r == self.spec_element_len(),
            1 <= r <= 65,
    {
        1 + popcount(self.bits & (ReadFormat::ID | ReadFormat::LOST)) as usize
    }
}

/// The value of one counter of a group.
#[derive(Clone, Copy, Debug, PartialEq, Eq, Structural)]
pub struct GroupEntry {
    pub read_format: ReadFormat,
    pub value: u64,
    pub id: u64,
    pub lost: u64,
}

impl GroupEntry {
    /// The entry that the words `data` of one element hold: the value, the
    /// id, and the lost count where a third word is there.
    pub open spec fn spec_new(read_format: ReadFormat, data: Seq<u64>) -> GroupEntry {
        GroupEntry {
            read_format,
            value: data[0],
            id: data[1],
            lost: if data.len() > 2 {
                data[2]
            } else {
                0
            },
        }
    }

    /// The entry that the words of one element hold.
    pub fn new(read_format: ReadFormat, data: &[u64]) -> (r: Self)
        requires
            data@.len() >= 2,
        ensures
            r == GroupEntry::spec_new(read_format, data@),
    {
        GroupEntry {
            read_format,
            value: data[0],
            id: data[1],
            lost: if data.len() > 2 {
                data[2]
            } else {
                0
            },
        }
    }

    /// The value of the counter.
    pub fn value(&self) -> (r: u64)
        ensures
            r == self.value,
    {
        self.value
    }

    /// The id of the counter.
    pub fn id(&self) -> (r: u64)
        ensures
            r == self.id,
    {
        self.id
    }

    /// How many samples of the counter were lost, where the read format
    /// reports it.
    pub fn lost(&self) -> (r: Option<u64>)
        ensures
            r == if self.read_format.contains(ReadFormat::LOST) {
                Some(self.lost)
            } else {
                None
            },
    {
        if self.read_format.contains(ReadFormat::LOST) {
            Some(self.lost)
        } else {
            None
        }
    }
}

/// The entries that the words `data` hold when cut into elements of
/// `element_len` words each. Words that do not fill an element are left
/// out.
pub open spec fn entries_of(read_format: ReadFormat, data: Seq<u64>, element_len: int) -> Seq<
    GroupEntry,
> {
    Seq::new(
        (data.len() as int / element_len) as nat,
        |k: int|
            GroupEntry::spec_new(
                read_format,
                data.subrange(k * element_len, k * element_len + element_len),
            ),
    )
}

/// A walk over the entries of a group.
#[derive(Clone, Copy, Debug)]
pub struct GroupIter<'a> {
    read_format: ReadFormat,
    element_len: usize,
    data: &'a [u64],
}

impl<'a> GroupIter<'a> {
    /// The entries that are still to come.
    pub closed spec fn remaining(&self) -> Seq<GroupEntry> {
        entries_of(self.read_format, self.data@, self.element_len as int)
    }

    /// Whether the walk cuts its words into elements of at least two words.
    pub closed spec fn wf(&self) -> bool {
        self.element_len >= 2
    }

    /// A walk over the elements that the words `data` hold.
    pub fn new(read_format: ReadFormat, data: &'a [u64]) -> (r: Self)
        requires
            read_format.spec_element_len() >= 2,
        ensures
            r.wf(),
            r.remaining() == entries_of(read_format, data@, read_format.spec_element_len() as int),
    {
        GroupIter { read_format, element_len: read_format.element_len(), data }
    }

    /// How many entries are still to come.
    pub fn len(&self) -> (r: usize)
        requires
            self.wf(),
        ensures
            r == self.remaining().len(),
    {
        self.data.len() / self.element_len
    }

    /// The next entry, if there is one.
    pub fn next(&mut self) -> (r: Option<GroupEntry>)
        requires
            old(self).wf(),
        ensures
            final(self).wf(),
            match r {
                Some(entry) => old(self).remaining().len() > 0 && entry == old(
                    self,
                ).remaining()[0] && final(self).remaining() == old(self).remaining().skip(1),
                None => old(self).remaining().len() == 0 && final(self).remaining() == old(
                    self,
                ).remaining(),
            },
    {
        let e = self.element_len;
        let n = self.data.len();
        if n < e {
            proof {
                assert(n as int / e as int == 0) by (nonlinear_arith)
                    requires
                        0 <= n < e,
                ;
            }
            return None;
        }
        let ghost before = self.data@;
        proof {
            lemma_entries_step(self.read_format, before, e as int);
        }
        let entry = GroupEntry::new(self.read_format, slice_subrange(self.data, 0, e));
        self.data = slice_subrange(self.data, e, n);
        Some(entry)
    }
}

/// The entries of a word sequence that holds at least one element are the
/// entry of its first element followed by the entries of the rest.
proof fn lemma_entries_step(read_format: ReadFormat, data: Seq<u64>, e: int)
    requires
        e >= 2,
        data.len() >= e,
    ensures
        entries_of(read_format, data, e).len() > 0,
        entries_of(read_format, data, e)[0] == GroupEntry::spec_new(
            read_format,
            data.subrange(0, e),
        ),
        entries_of(read_format, data.subrange(e, data.len() as int), e) == entries_of(
            read_format,
            data,
            e,
        ).skip(1),
{
    let n = data.len() as int;
    let rest = data.subrange(e, n);
    assert(n / e >= 1 && (n - e) / e == n / e - 1) by (nonlinear_arith)
        requires
            e >= 2,
            n >= e,
    ;
    assert(0 * e == 0);
    let all = entries_of(read_format, data, e);
    let tail = entries_of(read_format, rest, e);
    assert(tail.len() == all.len() - 1);
    assert forall|k: int| 0 <= k < tail.len() implies tail[k] == all.skip(1)[k] by {
        assert((k + 1) * e == k * e + e) by (nonlinear_arith);
        assert(0 <= k * e && k * e + e <= n - e) by (nonlinear_arith)
            requires
                0 <= k < (n - e) / e,
                e >= 2,
                n >= e,
        ;
        assert(rest.subrange(k * e, k * e + e) =~= data.subrange((k + 1) * e, (k + 1) * e + e));
    }
    assert(tail =~= all.skip(1));
}

/// The values of all counters of a group, from one read.
#[derive(Clone, Debug)]
pub struct GroupData {
    data: Vec<u64>,
    read_format: ReadFormat,
}

impl GroupData {
    /// The words of the read.
    pub closed spec fn words(&self) -> Seq<u64> {
        self.data@
    }

    /// The read format of the group, with the `SKIP_GROUP` bit where the
    /// group itself is to be passed over.
    pub closed spec fn format(&self) -> ReadFormat {
        self.read_format
    }

    /// Whether the words hold the whole prefix: the count and the times
    /// that the read format has.
    pub open spec fn has_prefix(&self) -> bool {
        self.words().len() >= self.format().spec_prefix_len()
    }

    /// Whether the words hold a count that can be a length: one that fits,
    /// and that leaves room for the group itself where that is passed over.
    pub open spec fn has_count(&self) -> bool {
        &&& self.words().len() >= 1
        &&& self.words()[0] <= usize::MAX
        &&& self.format().contains(SKIP_GROUP) ==> self.words()[0] >= 1
    }

    /// Whether the entries can be read: the words hold the prefix, and every
    /// element has an id or a lost count after its value.
    pub open spec fn wf(&self) -> bool {
        &&& self.has_prefix()
        &&& self.format().spec_element_len() >= 2
    }

    /// All entries of the read, that of the group itself included.
    pub open spec fn all_entries(&self) -> Seq<GroupEntry> {
        entries_of(
            self.format(),
            self.words().skip(self.format().spec_prefix_len() as int),
            self.format().spec_element_len() as int,
        )
    }

    /// The entries of the counters: all entries, without the first where
    /// the group itself is passed over.
    pub open spec fn entries(&self) -> Seq<GroupEntry> {
        if self.format().contains(SKIP_GROUP) && self.all_entries().len() > 0 {
            self.all_entries().skip(1)
        } else {
            self.all_entries()
        }
    }

    /// The data of a read that gave `data` under `read_format`.
    pub fn new(data: Vec<u64>, read_format: ReadFormat) -> (r: Self)
        ensures
            r.words() == data@,
            r.format() == read_format,
    {
        GroupData { data, read_format }
    }

    /// How many counters the data has values for, as its first word says.
    pub fn len(&self) -> (r: usize)
        requires
            self.has_count(),
        ensures
            r == if self.format().contains(SKIP_GROUP) {
                self.words()[0] - 1
            } else {
                self.words()[0] as int
            },
    {
        let len = self.data[0] as usize;
        if self.skip_group() {
            len - 1
        } else {
            len
        }
    }

    /// Which word of the data holds the time selected by `flag`: the count
    /// is word 0, and each time that the read format has takes the next
    /// word, the enabled time before the running time. `None` where the
    /// read format does not have `flag`.
    pub open spec fn spec_prefix_offset_of(&self, flag: u64) -> Option<nat> {
        if self.format().contains(flag) {
            Some(
                1 + count_ones(
                    (self.format().bits & (ReadFormat::TOTAL_TIME_ENABLED
                        | ReadFormat::TOTAL_TIME_RUNNING) & ((flag - 1) as u64)) as nat,
                ),
            )
        } else {
            None
        }
    }

    /// 1 where the read format has the enabled time, else 0: how many words
    /// lie between the count and the running time.
    pub open spec fn enabled_words(&self) -> nat {
        if self.format().contains(ReadFormat::TOTAL_TIME_ENABLED) {
            1
        } else {
            0
        }
    }

    /// Which word of the data holds the time selected by `flag`.
    pub fn prefix_offset_of(&self, flag: u64) -> (r: Option<usize>)
        requires
            flag >= 1,
        ensures
            match r {
                Some(i) => self.spec_prefix_offset_of(flag) == Some(i as nat) && 1 <= i <= 65,
                None => self.spec_prefix_offset_of(flag) is None,
            },
    {
        if !self.read_format.contains(flag) {
            return None;
        }
        let times = self.read_format.bits & (ReadFormat::TOTAL_TIME_ENABLED
            | ReadFormat::TOTAL_TIME_RUNNING);
        Some(1 + popcount(times & (flag - 1)) as usize)
    }

    /// For how many nanoseconds the group was enabled, where the read
    /// format has that time: the word after the count.
    pub fn time_enabled(&self) -> (r: Option<u64>)
        requires
            self.has_prefix(),
        ensures
            r == if self.format().contains(ReadFormat::TOTAL_TIME_ENABLED) {
                Some(self.words()[1])
            } else {
                None
            },
    {
        proof {
            lemma_time_offsets(*self);
        }
        match self.prefix_offset_of(ReadFormat::TOTAL_TIME_ENABLED) {
            Some(idx) => Some(self.data[idx]),
            None => None,
        }
    }

    /// For how many nanoseconds the group was counting, where the read
    /// format has that time: the word after the enabled time, or after the
    /// count where the format has no enabled time.
    pub fn time_running(&self) -> (r: Option<u64>)
        requires
            self.has_prefix(),
        ensures
            r == if self.format().contains(ReadFormat::TOTAL_TIME_RUNNING) {
                Some(self.words()[1 + self.enabled_words() as int])
            } else {
                None
            },
    {
        proof {
            lemma_time_offsets(*self);
        }
        match self.prefix_offset_of(ReadFormat::TOTAL_TIME_RUNNING) {
            Some(idx) => Some(self.data[idx]),
            None => None,
        }
    }

    /// The first entry with the given counter id, that of the group itself
    /// included.
    pub fn get(&self, id: u64) -> (r: Option<GroupEntry>)
        requires
            self.wf(),
        ensures
            match r {
                Some(entry) => exists|k: int|
                    0 <= k < self.all_entries().len() && self.all_entries()[k] == entry
                        && entry.id == id && forall|j: int|
                        0 <= j < k ==> (#[trigger] self.all_entries()[j]).id != id,
                None => forall|j: int|
                    0 <= j < self.all_entries().len() ==> (#[trigger] self.all_entries()[j]).id
                        != id,
            },
    {
        let mut iter = self.iter_with_group();
        let ghost all = iter.remaining();
        let ghost mut seen: int = 0;
        loop
            invariant
                iter.wf(),
                all == self.all_entries(),
                0 <= seen <= all.len(),
                iter.remaining() == all.skip(seen),
                forall|j: int| 0 <= j < seen ==> (#[trigger] all[j]).id != id,
            decreases all.len() - seen,
        {
            match iter.next() {
                None => {
                    return None;
                },
                Some(entry) => {
                    assert(entry == all[seen]);
                    if entry.id() == id {
                        return Some(entry);
                    }
                    proof {
                        assert(all.skip(seen).skip(1) =~= all.skip(seen + 1));
                        seen = seen + 1;
                    }
                },
            }
        }
    }

    /// The value of the counter with the given id, which the data must
    /// hold: that of the first entry with the id, the group itself included.
    pub fn index(&self, id: u64) -> (r: u64)
        requires
            self.wf(),
            exists|k: int| 0 <= k < self.all_entries().len() && self.all_entries()[k].id == id,
        ensures
            exists|k: int|
                0 <= k < self.all_entries().len() && self.all_entries()[k].id == id
                    && self.all_entries()[k].value == r && forall|j: int|
                    0 <= j < k ==> (#[trigger] self.all_entries()[j]).id != id,
    {
        match self.get(id) {
            Some(entry) => entry.value(),
            None => {
                proof {
                    let k = choose|k: int|
                        0 <= k < self.all_entries().len() && self.all_entries()[k].id == id;
                    assert(self.all_entries()[k].id != id);
                }
                vstd::pervasive::unreached()
            },
        }
    }

    /// A walk over the entries of the counters.
    pub fn iter(&self) -> (r: GroupIter<'_>)
        requires
            self.wf(),
        ensures
            r.wf(),
            r.remaining() == self.entries(),
    {
        let mut iter = self.iter_with_group();
        if self.skip_group() {
            let _ = iter.next();
        }
        iter
    }

    /// A walk over all entries, that of the group itself included.
    pub fn iter_with_group(&self) -> (r: GroupIter<'_>)
        requires
            self.wf(),
        ensures
            r.wf(),
            r.remaining() == self.all_entries(),
    {
        let prefix = self.read_format.prefix_len();
        GroupIter::new(
            self.read_format,
            slice_subrange(self.data.as_slice(), prefix, self.data.len()),
        )
    }

    /// Whether the first entry is the group itself and is passed over.
    pub fn skip_group(&self) -> (r: bool)
        ensures
            r == self.format().contains(SKIP_GROUP),
    {
        self.read_format.contains(SKIP_GROUP)
    }

    /// Marks the first entry as the group itself, to be passed over.
    pub fn set_skip_group(&mut self)
        ensures
            final(self).words() == old(self).words(),
            final(self).format().bits == old(self).format().bits | SKIP_GROUP,
            final(self).format().contains(SKIP_GROUP),
    {
        let bits = self.read_format.bits;
        assert((bits | SKIP_GROUP) & SKIP_GROUP == SKIP_GROUP) by (bit_vector);
        self.read_format = ReadFormat::new(bits | SKIP_GROUP);
    }
}

/// Where the times lie: the enabled time in word 1, the running time in the
/// word after it, or in word 1 where the format has no enabled time. Both
/// lie within the prefix.
pub proof fn lemma_time_offsets(data: GroupData)
    ensures
        data.spec_prefix_offset_of(ReadFormat::TOTAL_TIME_ENABLED) == if data.format().contains(
            ReadFormat::TOTAL_TIME_ENABLED,
        ) {
            Some(1nat)
        } else {
            None
        },
        data.spec_prefix_offset_of(ReadFormat::TOTAL_TIME_RUNNING) == if data.format().contains(
            ReadFormat::TOTAL_TIME_RUNNING,
        ) {
            Some(1 + data.enabled_words())
        } else {
            None
        },
        data.format().contains(ReadFormat::TOTAL_TIME_ENABLED) ==> 1
            < data.format().spec_prefix_len(),
        data.format().contains(ReadFormat::TOTAL_TIME_RUNNING) ==> 1 + data.enabled_words()
            < data.format().spec_prefix_len(),
{
    let bits = data.format().bits;
    let times = bits & (1u64 | 2u64);
    assert(times & 0 == 0) by (bit_vector);
    assert(times & 1 == bits & 1 && (bits & 1 == 0 || bits & 1 == 1)) by (bit_vector)
        requires
            times == bits & (1u64 | 2u64),
    ;
    assert(times == 0 || times == 1 || times == 2 || times == 3) by (bit_vector)
        requires
            times == bits & (1u64 | 2u64),
    ;
    assert((bits & 1 == 1) == (times == 1 || times == 3)) by (bit_vector)
        requires
            times == bits & (1u64 | 2u64),
    ;
    assert((bits & 2 == 2) == (times == 2 || times == 3)) by (bit_vector)
        requires
            times == bits & (1u64 | 2u64),
    ;
    assert(count_ones(0) == 0 && count_ones(1) == 1 && count_ones(2) == 1 && count_ones(3) == 2)
        by {
        reveal_with_fuel(count_ones, 3);
    }
}

} // verus!
