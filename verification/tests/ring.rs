use perf_event::buffer::{ByteBuffer, ParseError};
use perf_event::sampler::{
    after_poll, next_record, next_span, poll_timeout, release, sign_extend_value, PmcReadData,
    PollOutcome, Record, TimeConversion, UserReadData, WaitAction,
};
use perf_event::samples::bits::{RecordType, SampleType};
use perf_event::samples::config::ParseConfig;
use perf_event::samples::record::RecordEvent;

fn region() -> Vec<u8> {
    (0u8..16).collect()
}

#[test]
fn span_is_none_when_nothing_is_unread() {
    let data = region();
    assert!(next_span(&data, 0, 0).is_none());
    assert!(next_span(&data, 37, 37).is_none());
}

#[test]
fn span_in_one_piece() {
    let data = region();
    let buf = next_span(&data, 3, 9).unwrap();
    assert!(matches!(buf, ByteBuffer::Single(_)));
    assert_eq!(buf.to_vec(), vec![3, 4, 5, 6, 7, 8]);
    // Positions count on beyond the size of the region.
    let buf = next_span(&data, 16 * 5 + 3, 16 * 5 + 9).unwrap();
    assert_eq!(buf.to_vec(), vec![3, 4, 5, 6, 7, 8]);
}

#[test]
fn span_wraps_around_the_end() {
    let data = region();
    let buf = next_span(&data, 14, 19).unwrap();
    assert!(matches!(buf, ByteBuffer::Split(_)));
    assert_eq!(buf.to_vec(), vec![14, 15, 0, 1, 2]);
    // A full region: head is one whole size ahead of tail.
    let buf = next_span(&data, 4, 20).unwrap();
    assert_eq!(buf.len(), 16);
    assert_eq!(buf.to_vec(), vec![4, 5, 6, 7, 8, 9, 10, 11, 12, 13, 14, 15, 0, 1, 2, 3]);
}

#[test]
fn released_bytes_are_not_shown_again() {
    let data = region();
    let (tail, head) = (10u64, 22u64);
    let first = next_span(&data, tail, head).unwrap().to_vec();
    assert_eq!(first.len(), 12);
    let tail = release(tail, 5);
    assert_eq!(tail, 15);
    let second = next_span(&data, tail, head).unwrap().to_vec();
    assert_eq!(second, first[5..]);
    // The kernel writes on; what is shown still starts after the release.
    let third = next_span(&data, tail, head + 4).unwrap().to_vec();
    assert_eq!(third.len(), 11);
    assert_eq!(third[..7], first[5..]);
    let tail = release(tail, 11);
    assert!(next_span(&data, tail, head + 4).is_none());
}

#[test]
fn release_wraps_at_the_end_of_the_positions() {
    assert_eq!(release(u64::MAX - 1, 3), 1);
    assert_eq!(release(0, 0), 0);
    assert_eq!(release(7, u16::MAX), 7 + 65535);
}

fn lost_record_ring(at: usize) -> Vec<u8> {
    // One `Lost` record of 24 bytes written at position `at` of a region of
    // 32 bytes.
    let mut record = Vec::new();
    record.extend(RecordType::LOST.to_le_bytes());
    record.extend(0x0001u16.to_le_bytes());
    record.extend(24u16.to_le_bytes());
    record.extend(0x55u64.to_le_bytes());
    record.extend(0x66u64.to_le_bytes());
    let mut data = vec![0xffu8; 32];
    for (i, b) in record.iter().enumerate() {
        data[(at + i) % 32] = *b;
    }
    data
}

#[test]
fn next_record_frames_one_record() {
    for at in 0..32u64 {
        let data = lost_record_ring(at as usize);
        // More than the record is unread.
        let head = at + 28;
        let cfg = ParseConfig::default();
        let rec = next_record(&data, at, head, cfg).unwrap().unwrap();
        assert_eq!(rec.ty(), RecordType::LOST);
        assert_eq!(rec.misc(), 1);
        assert_eq!(rec.len(), 16);
        assert_eq!(rec.release_len(), 24);
        let mut expected = 0x55u64.to_le_bytes().to_vec();
        expected.extend(0x66u64.to_le_bytes());
        assert_eq!(rec.to_vec(), expected);
        assert_eq!(&*rec.to_contiguous(), &expected[..]);
        assert_eq!(rec.data().concat(), expected);
        // Two slices where the payload wraps, and also where the header ends
        // just at the end of the region: the first slice is then empty.
        let start = (at + 8) % 32;
        let two = start + 16 > 32 || start == 0;
        assert_eq!(rec.data().len(), if two { 2 } else { 1 });
        let decoded = rec.parse_record().unwrap();
        assert!(matches!(decoded.event, RecordEvent::Lost(l) if l.id == 0x55 && l.lost == 0x66));
        assert_eq!(rec.parse_sample_id().unwrap(), decoded.sample_id);
    }
}

#[test]
fn next_record_none_when_idle() {
    let data = lost_record_ring(0);
    assert!(next_record(&data, 24, 24, ParseConfig::default()).unwrap().is_none());
}

#[test]
fn frame_errors() {
    let cfg = ParseConfig::default();
    // Fewer bytes than a header.
    assert!(matches!(Record::frame(ByteBuffer::Single(&[0; 7]), cfg), Err(ParseError::Eof)));
    // A declared size below the size of the header.
    let mut bytes = vec![0u8; 8];
    bytes[6] = 7;
    assert!(matches!(
        Record::frame(ByteBuffer::Single(&bytes), cfg),
        Err(ParseError::InvalidHeader)
    ));
    // A declared size beyond the unread bytes.
    bytes[6] = 9;
    assert!(matches!(Record::frame(ByteBuffer::Single(&bytes), cfg), Err(ParseError::Eof)));
    // A record of just a header.
    bytes[6] = 8;
    let rec = Record::frame(ByteBuffer::Single(&bytes), cfg).unwrap();
    assert_eq!(rec.len(), 0);
}

#[test]
fn sample_id_of_record_with_trailer_needs_no_payload() {
    let mut cfg = ParseConfig::new(SampleType::TIME, 0, true, 0, 0, 0);
    cfg.sample_id_all = true;
    // An `Exit` record whose payload is cut short but whose trailer is whole.
    let mut bytes = Vec::new();
    bytes.extend(RecordType::EXIT.to_le_bytes());
    bytes.extend(0u16.to_le_bytes());
    bytes.extend(20u16.to_le_bytes());
    bytes.extend([1, 2, 3, 4]);
    bytes.extend(0x99u64.to_le_bytes());
    let rec = Record::frame(ByteBuffer::Single(&bytes), cfg).unwrap();
    assert!(matches!(rec.parse_record(), Err(ParseError::Eof)));
    assert_eq!(rec.parse_sample_id().unwrap().time, Some(0x99));
}

#[test]
fn pmc_capabilities_and_index() {
    let data = PmcReadData::new(1, 0b10_1100, 10, 20, 3, 0);
    assert!(data.cap_user_rdpmc());
    assert!(data.cap_user_time());
    assert!(data.cap_user_time_short());
    assert_eq!(data.index(), Some(2));
    let data = PmcReadData::new(1, 0b00_1000, 10, 20, 3, 0);
    assert!(!data.cap_user_rdpmc());
    assert!(data.cap_user_time());
    assert!(!data.cap_user_time_short());
    assert_eq!(data.index(), None);
    let data = PmcReadData::new(1, 0b100, 10, 20, 0, 0);
    assert_eq!(data.index(), None);
}

#[test]
fn pmc_value_is_sign_extended_and_added() {
    let mut data = PmcReadData::new(1, 0b100, 10, 20, 1, 100);
    data.with_pmc(0x0000_ffff_ffff_fff6, 48);
    // The low 48 bits are -10.
    assert_eq!(data.count, 90);
    assert!(data.has_pmc_value);
    let mut data = PmcReadData::new(1, 0b100, 10, 20, 1, 100);
    data.with_pmc(0xabcd_0000_0000_0007, 48);
    assert_eq!(data.count, 107);
    let mut data = PmcReadData::new(1, 0b100, 10, 20, 1, 1);
    data.with_pmc(u64::MAX, 64);
    assert_eq!(data.count, 0);
    assert_eq!(sign_extend_value(0b101, 3), u64::MAX - 2);
    assert_eq!(sign_extend_value(0b101, 4), 5);
    assert_eq!(sign_extend_value(1, 1), u64::MAX);
}

#[test]
fn pmc_time_conversion() {
    let time = TimeConversion {
        time_offset: 1000,
        time_mult: 3,
        time_shift: 4,
        time_cycles: 0,
        time_mask: 0,
    };
    // 100 cycles: quotient 6, remainder 4; 6 * 3 + (4 * 3 >> 4) = 18.
    assert_eq!(time.delta(100, false), 1018);
    let mut data = PmcReadData::new(1, 0b1100, 10, 20, 1, 0);
    data.with_tsc(100, &time);
    assert_eq!((data.enabled, data.running), (1028, 1038));
    // A counter that is not on the processor keeps its times.
    let mut idle = PmcReadData::new(1, 0b1100, 10, 20, 0, 0);
    idle.with_tsc(100, &time);
    assert_eq!((idle.enabled, idle.running), (10, 20));

    let short = TimeConversion {
        time_offset: 0,
        time_mult: 1,
        time_shift: 0,
        time_cycles: 0x1_0000_0010,
        time_mask: 0xffff_ffff,
    };
    // The counter has wrapped at 32 bits: 0x20 stands for 0x1_0000_0020.
    assert_eq!(short.delta(0x20, true), 0x1_0000_0020);
    assert_eq!(short.delta(0x20, false), 0x20);
}

#[test]
fn pmc_finish_checks_the_sequence_number() {
    let mut data = PmcReadData::new(8, 0b100, 10, 20, 1, 5);
    assert_eq!(
        data.finish(8),
        Some(UserReadData { time_enabled: 10, time_running: 20, value: None })
    );
    assert_eq!(data.finish(9), None);
    data.with_pmc(1, 64);
    assert_eq!(
        data.finish(8),
        Some(UserReadData { time_enabled: 10, time_running: 20, value: Some(6) })
    );
}

#[test]
fn user_read_scaled_count() {
    let data = UserReadData { time_enabled: 300, time_running: 100, value: Some(1050) };
    assert_eq!(data.time_enabled(), 300);
    assert_eq!(data.time_running(), 100);
    assert_eq!(data.count(), Some(1050));
    assert_eq!(data.scaled_count(), Some(3150));
    let data = UserReadData { time_enabled: 7, time_running: 3, value: Some(10) };
    // 10 / 3 * 7 + (10 % 3 * 7) / 3 = 21 + 2.
    assert_eq!(data.scaled_count(), Some(23));
    let none = UserReadData { time_enabled: 7, time_running: 0, value: None };
    assert_eq!(none.scaled_count(), None);
}

#[test]
fn wait_decisions() {
    assert_eq!(after_poll(PollOutcome::TimedOut), WaitAction::Finish);
    assert_eq!(after_poll(PollOutcome::Ready { hangup: true }), WaitAction::DrainOnce);
    assert_eq!(after_poll(PollOutcome::Ready { hangup: false }), WaitAction::Retry);
    assert_eq!(after_poll(PollOutcome::Interrupted), WaitAction::Retry);
    assert_eq!(after_poll(PollOutcome::Failed), WaitAction::Fatal);
    assert_eq!(poll_timeout(None), -1);
    assert_eq!(poll_timeout(Some(0)), 0);
    assert_eq!(poll_timeout(Some(1500)), 1500);
    assert_eq!(poll_timeout(Some(i32::MAX as u128)), i32::MAX);
    assert_eq!(poll_timeout(Some(i32::MAX as u128 + 1)), i32::MAX);
    assert_eq!(poll_timeout(Some(u128::MAX)), i32::MAX);
}
