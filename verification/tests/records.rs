use perf_event::buffer::{ByteBuffer, ParseError};
use perf_event::samples::bits::SampleType;
use perf_event::samples::comm::Comm;
use perf_event::samples::config::ParseConfig;
use perf_event::samples::exit::Exit;
use perf_event::samples::fork::Fork;
use perf_event::samples::lost::Lost;
use perf_event::samples::sample_id::SampleId;
use perf_event::samples::throttle::Throttle;

fn config_with(sample_type: u64) -> ParseConfig {
    ParseConfig::new(sample_type, 0, false, 0, 0, 0)
}

#[test]
fn comm_test_parse() {
    let bytes: &[u8] = &[
        0x10, 0x10, 0x00, 0x00, 0x00, 0x05, 0x00, 0x00,
        b't', b'e', b's', b't', 0x00, 0x00, 0x00, 0x00
    ];
    let mut buf = ByteBuffer::Single(bytes);

    let comm = Comm::parse(&ParseConfig::default(), &mut buf).unwrap();

    assert_eq!(comm.pid, 0x1010);
    assert_eq!(comm.tid, 0x0500);
    assert_eq!(comm.comm, b"test");
}

#[test]
fn exit_test_parse() {
    let bytes: &[u8] = &[
        0x10, 0x10, 0x00, 0x00, 0x00, 0x05, 0x00, 0x00,
        0x01, 0x00, 0x00, 0x00, 0x02, 0x00, 0x00, 0x00,
        0x03, 0x00, 0x00, 0x00, 0x04, 0x00, 0x00, 0x00,
    ];
    let mut buf = ByteBuffer::Single(bytes);

    let exit = Exit::parse(&ParseConfig::default(), &mut buf).unwrap();

    assert_eq!(exit.pid, 0x1010);
    assert_eq!(exit.ppid, 0x0500);
    assert_eq!(exit.tid, 0x01);
    assert_eq!(exit.ptid, 0x02);
    assert_eq!(exit.time, 0x0400000003);
}

#[test]
fn fork_test_parse() {
    let bytes: &[u8] = &[
        0x10, 0x10, 0x00, 0x00, 0x00, 0x05, 0x00, 0x00,
        0x01, 0x00, 0x00, 0x00, 0x02, 0x00, 0x00, 0x00,
        0x03, 0x00, 0x00, 0x00, 0x04, 0x00, 0x00, 0x00,
    ];
    let mut buf = ByteBuffer::Single(bytes);

    let exit = Fork::parse(&ParseConfig::default(), &mut buf).unwrap();

    assert_eq!(exit.pid, 0x1010);
    assert_eq!(exit.ppid, 0x0500);
    assert_eq!(exit.tid, 0x01);
    assert_eq!(exit.ptid, 0x02);
    assert_eq!(exit.time, 0x0400000003);
}

#[test]
fn lost_test_parse() {
    let bytes: &[u8] = &[
        0x10, 0x00, 0x99, 0x00, 0x00, 0x00, 0x00, 0x00,
        0x00, 0xAF, 0x00, 0x00, 0x00, 0x7B, 0x00, 0x00
    ];
    let mut buf = ByteBuffer::Single(bytes);

    let lost = Lost::parse(&ParseConfig::default(), &mut buf).unwrap();

    assert_eq!(lost.id, 0x990010);
    assert_eq!(lost.lost, 0x7B000000AF00);
}

#[test]
fn throttle_test_parse() {
    let bytes: &[u8] = &[
        0x10, 0x20, 0x30, 0x40, 0x50, 0x60, 0x70, 0x80,
        0x90, 0xA0, 0xB0, 0xC0, 0xD0, 0xE0, 0xF0, 0x00,
        0xEF, 0xBE, 0xAD, 0xDE, 0xFE, 0xCA, 0xEF, 0xBE,
    ];
    let mut buf = ByteBuffer::Single(bytes);

    let throttle = Throttle::parse(&ParseConfig::default(), &mut buf).unwrap();

    assert_eq!(throttle.time, 0x8070605040302010);
    assert_eq!(throttle.id, 0x00F0E0D0C0B0A090);
    assert_eq!(throttle.stream_id, 0xBEEFCAFEDEADBEEF);
}

#[test]
fn sample_id_expected_size_empty_with_flags() {
    let config = config_with(SampleType::CPU | SampleType::TID);

    // sample_id_all not specified so size should be 0
    assert_eq!(SampleId::expected_size(&config), 0);
}

#[test]
fn sample_id_parse_empty_with_flags() {
    let config = config_with(SampleType::CPU | SampleType::TID);
    let mut buf = ByteBuffer::Single(&[]);

    // sample_id_all not specified so nothing should be parsed
    let sample_id = SampleId::parse(&config, &mut buf).unwrap();

    assert_eq!(sample_id.cpu, None);
    assert_eq!(sample_id.tid, None);
    assert_eq!(sample_id.pid, None);
}

#[test]
fn sample_id_all_parse_full_with_flags() {
    let mut config = config_with(SampleType::CPU | SampleType::TIME);
    // Don't have a method for setting this on the builder yet so do it
    // directly here.
    config.sample_id_all = true;

    let bytes: &[u8] = &[
        0x01, 0x00, 0x00, 0x00, 0x00, 0x00, 0x00, 0x00,
        0x02, 0x00, 0x00, 0x00, 0x00, 0x00, 0x00, 0x00
    ];
    let mut buf = ByteBuffer::Single(bytes);

    let sample_id = SampleId::parse(&config, &mut buf).unwrap();

    assert_eq!(buf.len(), 0);

    assert_eq!(sample_id.time, Some(1));
    assert_eq!(sample_id.cpu, Some(2));
    assert_eq!(sample_id.pid, None);
    assert_eq!(sample_id.tid, None);
    assert_eq!(sample_id.id, None);
}

#[test]
fn exit_short_input_is_eof() {
    let bytes = [0u8; 23];
    let mut buf = ByteBuffer::Single(&bytes);
    assert_eq!(Exit::parse(&ParseConfig::default(), &mut buf), Err(ParseError::Eof));
}
