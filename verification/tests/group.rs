use perf_event::group::{GroupData, GroupEntry, GroupIter, SKIP_GROUP};
use perf_event::samples::bits::ReadFormat;

fn group_format() -> ReadFormat {
    ReadFormat::new(
        ReadFormat::GROUP
            | ReadFormat::TOTAL_TIME_ENABLED
            | ReadFormat::TOTAL_TIME_RUNNING
            | ReadFormat::ID,
    )
}

fn collect(mut iter: GroupIter<'_>) -> Vec<GroupEntry> {
    let mut out = Vec::new();
    while let Some(entry) = iter.next() {
        out.push(entry);
    }
    out
}

#[test]
fn read_format_lengths() {
    assert_eq!(ReadFormat::new(0).prefix_len(), 1);
    assert_eq!(ReadFormat::new(0).element_len(), 1);
    assert_eq!(group_format().prefix_len(), 3);
    assert_eq!(group_format().element_len(), 2);
    assert_eq!(ReadFormat::new(ReadFormat::ID | ReadFormat::LOST).element_len(), 3);
    assert_eq!(ReadFormat::new(ReadFormat::TOTAL_TIME_RUNNING).prefix_len(), 2);
    assert_eq!(ReadFormat::MAX_NON_GROUP_SIZE, 5);
}

#[test]
fn group_data_entries() {
    let words = vec![3, 1000, 900, 0, 70, 11, 71, 22, 72];
    let mut data = GroupData::new(words, group_format());
    assert_eq!(data.len(), 3);
    assert!(!data.skip_group());
    let all = collect(data.iter());
    assert_eq!(all.len(), 3);
    assert_eq!((all[1].value(), all[1].id(), all[1].lost()), (11, 71, None));
    assert_eq!(data.iter().len(), 3);

    data.set_skip_group();
    assert!(data.skip_group());
    assert_eq!(data.len(), 2);
    let counters = collect(data.iter());
    assert_eq!(counters.len(), 2);
    assert_eq!((counters[0].value(), counters[0].id()), (11, 71));
    assert_eq!((counters[1].value(), counters[1].id()), (22, 72));
    assert_eq!(collect(data.iter_with_group()).len(), 3);

    assert_eq!(data.get(72).map(|e| e.value()), Some(22));
    assert_eq!(data.get(70).map(|e| e.value()), Some(0));
    assert_eq!(data.get(99), None);
    assert_eq!(data.index(71), 11);
    assert_eq!(data.index(70), 0);
}

#[test]
fn group_data_times_follow_the_prefix_offsets() {
    let data = GroupData::new(vec![3, 1000, 900, 0, 70], group_format());
    assert_eq!(data.prefix_offset_of(ReadFormat::TOTAL_TIME_ENABLED), Some(1));
    assert_eq!(data.prefix_offset_of(ReadFormat::TOTAL_TIME_RUNNING), Some(2));
    assert_eq!(data.time_enabled(), Some(1000));
    assert_eq!(data.time_running(), Some(900));
    let plain = GroupData::new(vec![1, 5, 6], ReadFormat::new(ReadFormat::GROUP | ReadFormat::ID));
    assert_eq!(plain.prefix_offset_of(ReadFormat::TOTAL_TIME_ENABLED), None);
    assert_eq!(plain.time_enabled(), None);
    assert_eq!(plain.time_running(), None);
}

#[test]
fn group_data_one_counter_with_both_times() {
    let data = GroupData::new(vec![1, 100, 50, 7, 42], group_format());
    assert_eq!(data.len(), 1);
    assert_eq!(data.time_enabled(), Some(100));
    assert_eq!(data.time_running(), Some(50));
    assert_eq!(data.get(42).map(|e| e.value()), Some(7));
}

#[test]
fn group_data_running_time_without_enabled_time() {
    let format = ReadFormat::new(ReadFormat::GROUP | ReadFormat::TOTAL_TIME_RUNNING | ReadFormat::ID);
    let data = GroupData::new(vec![1, 50, 7, 42], format);
    assert_eq!(data.prefix_offset_of(ReadFormat::TOTAL_TIME_RUNNING), Some(1));
    assert_eq!(data.time_enabled(), None);
    assert_eq!(data.time_running(), Some(50));
    let only_enabled =
        ReadFormat::new(ReadFormat::GROUP | ReadFormat::TOTAL_TIME_ENABLED | ReadFormat::ID);
    let data = GroupData::new(vec![1, 100, 7, 42], only_enabled);
    assert_eq!(data.time_enabled(), Some(100));
    assert_eq!(data.time_running(), None);
}

#[test]
fn group_data_without_ids_still_has_count_and_times() {
    let format = ReadFormat::new(
        ReadFormat::GROUP | ReadFormat::TOTAL_TIME_ENABLED | ReadFormat::TOTAL_TIME_RUNNING,
    );
    let mut data = GroupData::new(vec![2, 100, 50, 7, 8], format);
    assert_eq!(data.len(), 2);
    assert_eq!(data.time_enabled(), Some(100));
    assert_eq!(data.time_running(), Some(50));
    data.set_skip_group();
    assert_eq!(data.len(), 1);
    assert_eq!(data.time_running(), Some(50));
}

#[test]
fn group_entry_with_lost_count() {
    let format = ReadFormat::new(ReadFormat::ID | ReadFormat::LOST | SKIP_GROUP);
    let entry = GroupEntry::new(format, &[5, 6, 7]);
    assert_eq!((entry.value(), entry.id(), entry.lost()), (5, 6, Some(7)));
    let entry = GroupEntry::new(ReadFormat::new(ReadFormat::ID), &[5, 6]);
    assert_eq!((entry.value(), entry.id(), entry.lost()), (5, 6, None));
    let iter = GroupIter::new(format, &[1, 2, 3, 4, 5, 6, 7]);
    let entries = collect(iter);
    assert_eq!(entries.len(), 2);
    assert_eq!(entries[1].lost(), Some(6));
}
