use perf_event::buffer::{ByteBuffer, ParseError};
use perf_event::flags::SampleBranchFlag;
use perf_event::samples::bits::{
    ReadFormat, RecordMiscFlags, RecordType, SampleRegsAbi, SampleType,
};
use perf_event::samples::config::ParseConfig;
use perf_event::samples::read_value::{CounterValue, GroupValue, ReadValue};
use perf_event::samples::record::{Record, RecordEvent, RecordHeader};
use perf_event::samples::registers::{popcount, Registers};
use perf_event::samples::sample::Sample;
use perf_event::samples::sample_id::SampleId;
use perf_event::samples::switch_cpu_wide::SwitchCpuWide;

fn words(values: &[u64]) -> Vec<u8> {
    values.iter().flat_map(|v| v.to_le_bytes()).collect()
}

fn config(sample_type: u64, read_format: u64) -> ParseConfig {
    ParseConfig::new(sample_type, read_format, false, 0, 0, 0)
}

#[test]
fn sample_without_fields_is_all_extra() {
    let bytes = [1u8, 2, 3, 4, 5, 6, 7, 8, 9];
    let mut buf = ByteBuffer::Single(&bytes);
    let sample = Sample::parse(&config(0, 0), &mut buf).unwrap();
    assert_eq!(sample.extra, bytes);
    assert_eq!(buf.len(), 0);
    assert!(sample.ip.is_none() && sample.pid.is_none() && sample.tid.is_none());
    assert!(sample.time.is_none() && sample.addr.is_none() && sample.id.is_none());
    assert!(sample.stream_id.is_none() && sample.cpu.is_none() && sample.period.is_none());
    assert!(sample.value.is_none() && sample.callchain.is_none() && sample.raw.is_none());
    assert!(sample.lbr.is_none() && sample.lbr_hw_index.is_none());
    assert!(sample.regs_user.is_none() && sample.stack_user.is_none());
    assert!(sample.weight.is_none() && sample.data_src.is_none());
    assert!(sample.transaction.is_none() && sample.regs_intr.is_none());
    assert!(sample.phys_addr.is_none() && sample.cgroup.is_none());
    assert!(sample.data_page_size.is_none() && sample.code_page_size.is_none());
    assert!(sample.aux.is_none());
}

#[test]
fn counter_value_with_all_formats_is_four_words() {
    let rf = ReadFormat::TOTAL_TIME_ENABLED | ReadFormat::TOTAL_TIME_RUNNING | ReadFormat::ID;
    let bytes = words(&[11, 22, 33, 44, 55]);
    let mut buf = ByteBuffer::Single(&bytes);
    let value = CounterValue::parse(&config(0, rf), &mut buf).unwrap();
    assert_eq!(
        value,
        CounterValue { value: 11, time_enabled: Some(22), time_running: Some(33), id: Some(44) }
    );
    assert_eq!(buf.len(), 8);

    let mut short = ByteBuffer::Single(&bytes[..31]);
    assert_eq!(CounterValue::parse(&config(0, rf), &mut short), Err(ParseError::Eof));
}

#[test]
fn counter_value_without_formats_is_one_word() {
    let bytes = words(&[11, 22]);
    let mut buf = ByteBuffer::Single(&bytes);
    let value = CounterValue::parse(&config(0, 0), &mut buf).unwrap();
    assert_eq!(value, CounterValue { value: 11, time_enabled: None, time_running: None, id: None });
    assert_eq!(buf.len(), 8);
}

#[test]
fn group_value_entries() {
    let rf = ReadFormat::GROUP | ReadFormat::TOTAL_TIME_RUNNING | ReadFormat::ID;
    let bytes = words(&[2, 900, 10, 100, 20, 200]);
    let mut buf = ByteBuffer::Single(&bytes);
    let value = ReadValue::parse(&config(0, rf), &mut buf).unwrap();
    match value {
        ReadValue::Group(GroupValue { time_enabled, time_running, values }) => {
            assert_eq!(time_enabled, None);
            assert_eq!(time_running, Some(900));
            assert_eq!(values.len(), 2);
            assert_eq!((values[0].value, values[0].id), (10, Some(100)));
            assert_eq!((values[1].value, values[1].id), (20, Some(200)));
        }
        ReadValue::Counter(_) => panic!("expected a group"),
    }
    assert_eq!(buf.len(), 0);

    // A count that the bytes cannot hold is an end-of-data error.
    let bytes = words(&[u64::MAX, 900, 10, 100]);
    let mut buf = ByteBuffer::Single(&bytes);
    assert!(matches!(ReadValue::parse(&config(0, rf), &mut buf), Err(ParseError::Eof)));
}

#[test]
fn registers_with_abi_none_are_empty() {
    let bytes = words(&[0, 7, 8]);
    let mut buf = ByteBuffer::Single(&bytes);
    let regs = Registers::parse_regs(0b1011, &mut buf).unwrap();
    assert_eq!(regs.abi, SampleRegsAbi(SampleRegsAbi::NONE));
    assert_eq!(regs.mask, 0);
    assert!(regs.regs.is_empty());
    assert_eq!(buf.len(), 16);
}

#[test]
fn registers_one_value_per_mask_bit() {
    let bytes = words(&[2, 70, 80, 90, 1]);
    let mut buf = ByteBuffer::Single(&bytes);
    let regs = Registers::parse_regs(0b1011, &mut buf).unwrap();
    assert_eq!(regs.abi, SampleRegsAbi(SampleRegsAbi::ABI_64));
    assert_eq!(regs.mask, 0b1011);
    assert_eq!(regs.regs, vec![70, 80, 90]);
    assert_eq!(buf.len(), 8);
    assert_eq!(regs.reg(0), Some(70));
    assert_eq!(regs.reg(1), Some(80));
    assert_eq!(regs.reg(2), None);
    assert_eq!(regs.reg(3), Some(90));
    assert_eq!(regs.reg(63), None);

    let mut short = ByteBuffer::Single(&bytes[..31]);
    assert!(matches!(Registers::parse_regs(0b1011, &mut short), Err(ParseError::Eof)));
}

#[test]
fn popcount_agrees_with_std() {
    for x in [0u64, 1, 2, 3, 0xff, 0x8000_0000_0000_0000, u64::MAX, 0xdead_beef_cafe_f00d] {
        assert_eq!(popcount(x), x.count_ones());
    }
}

fn full_sample_bytes() -> Vec<u8> {
    let mut b = Vec::new();
    b.extend(words(&[0xaa])); // identifier
    b.extend(words(&[0x1000])); // ip
    b.extend(7u32.to_le_bytes()); // pid
    b.extend(8u32.to_le_bytes()); // tid
    b.extend(words(&[99])); // time
    b.extend(words(&[0x2000])); // addr
    b.extend(words(&[0xbb])); // id
    b.extend(words(&[0xcc])); // stream id
    b.extend(3u32.to_le_bytes()); // cpu
    b.extend(0u32.to_le_bytes()); // reserved
    b.extend(words(&[5000])); // period
    b.extend(words(&[42])); // read value
    b.extend(words(&[2, 0x10, 0x20])); // callchain
    b.extend(words(&[3])); // raw length
    b.extend([1u8, 2, 3]);
    b.extend(words(&[1, 0x77, 0x100, 0x200, 0b1_0000_0000_0000_0010_0101])); // lbr
    b.extend(words(&[2, 0x11])); // user registers
    b.extend(words(&[4])); // user stack
    b.extend([9u8, 8, 7, 6]);
    b.extend(words(&[2])); // dynamic size
    b.extend(words(&[17])); // weight
    b.extend(words(&[0x1234])); // data source
    b.extend(words(&[0x0005_0000_0001])); // transaction
    b.extend(words(&[0])); // interrupt registers: no ABI
    b.extend(words(&[0x3000])); // physical address
    b.extend(words(&[0xc0])); // cgroup
    b.extend(words(&[4096])); // data page size
    b.extend(words(&[8192])); // code page size
    b.extend(words(&[2])); // aux length
    b.extend([0xa1u8, 0xa2]);
    b.extend([0xee, 0xff]); // extra
    b
}

fn full_config() -> ParseConfig {
    ParseConfig::new(0x1ff_ffff & !SampleType::WEIGHT_STRUCT, 0, false, 0b1, 0b111, SampleBranchFlag::HW_INDEX)
}

fn check_full_sample(sample: &Sample) {
    assert_eq!(sample.ip, Some(0x1000));
    assert_eq!(sample.pid, Some(7));
    assert_eq!(sample.tid, Some(8));
    assert_eq!(sample.time, Some(99));
    assert_eq!(sample.addr, Some(0x2000));
    assert_eq!(sample.id, Some(0xbb));
    assert_eq!(sample.stream_id, Some(0xcc));
    assert_eq!(sample.cpu, Some(3));
    assert_eq!(sample.period, Some(5000));
    assert!(matches!(sample.value, Some(ReadValue::Counter(ref v)) if v.value == 42));
    assert_eq!(sample.callchain, Some(vec![0x10, 0x20]));
    assert_eq!(sample.raw, Some(vec![1, 2, 3]));
    assert_eq!(sample.lbr_hw_index, Some(0x77));
    let lbr = sample.lbr.as_ref().unwrap();
    assert_eq!(lbr.len(), 1);
    assert_eq!((lbr[0].from(), lbr[0].to()), (0x100, 0x200));
    assert!(lbr[0].mispred() && !lbr[0].predicted() && lbr[0].in_tx() && !lbr[0].abort());
    assert_eq!(lbr[0].cycles(), 2);
    assert_eq!(lbr[0].ty().0, 1);
    let regs = sample.regs_user.as_ref().unwrap();
    assert_eq!((regs.abi.0, regs.mask, regs.regs.clone()), (2, 1, vec![0x11]));
    assert_eq!(sample.stack_user, Some(vec![9, 8]));
    assert_eq!(sample.weight, Some(17));
    assert_eq!(sample.data_src.unwrap().0, 0x1234);
    assert_eq!(sample.transaction.unwrap().bits(), 0x0005_0000_0001);
    assert_eq!(sample.transaction.unwrap().abort(), 5);
    let intr = sample.regs_intr.as_ref().unwrap();
    assert_eq!((intr.abi.0, intr.mask, intr.regs.len()), (0, 0, 0));
    assert_eq!(sample.phys_addr, Some(0x3000));
    assert_eq!(sample.cgroup, Some(0xc0));
    assert_eq!(sample.data_page_size, Some(4096));
    assert_eq!(sample.code_page_size, Some(8192));
    assert_eq!(sample.aux, Some(vec![0xa1, 0xa2]));
    assert_eq!(sample.extra, vec![0xee, 0xff]);
}

#[test]
fn sample_with_every_field() {
    let bytes = full_sample_bytes();
    let mut buf = ByteBuffer::Single(&bytes);
    let sample = Sample::parse(&full_config(), &mut buf).unwrap();
    check_full_sample(&sample);
    assert_eq!(buf.len(), 0);
}

#[test]
fn sample_identifier_is_id_without_id_field() {
    let bytes = words(&[0xaa]);
    let mut buf = ByteBuffer::Single(&bytes);
    let sample = Sample::parse(&config(SampleType::IDENTIFIER, 0), &mut buf).unwrap();
    assert_eq!(sample.id, Some(0xaa));
}

#[test]
fn sample_split_anywhere_decodes_the_same() {
    let bytes = full_sample_bytes();
    for k in 0..=bytes.len() {
        let mut buf = ByteBuffer::Split([&bytes[..k], &bytes[k..]]);
        let sample = Sample::parse(&full_config(), &mut buf).unwrap();
        check_full_sample(&sample);
        assert_eq!(buf.len(), 0);
    }
}

#[test]
fn sample_cut_short_anywhere_is_eof() {
    let bytes = full_sample_bytes();
    // Without the two extra bytes every proper prefix lacks a field.
    let fields = bytes.len() - 2;
    for n in 0..fields {
        let mut buf = ByteBuffer::Single(&bytes[..n]);
        assert!(
            matches!(Sample::parse(&full_config(), &mut buf), Err(ParseError::Eof)),
            "prefix of {n} bytes"
        );
    }
}

#[test]
fn sample_blob_length_beyond_input_is_eof() {
    let mut bytes = words(&[u64::MAX]);
    bytes.extend([1, 2, 3]);
    let mut buf = ByteBuffer::Single(&bytes);
    assert!(matches!(
        Sample::parse(&config(SampleType::RAW, 0), &mut buf),
        Err(ParseError::Eof)
    ));
}

#[test]
fn sample_user_stack_of_length_zero_has_no_dynamic_size() {
    let bytes = words(&[0, 17]);
    let mut buf = ByteBuffer::Single(&bytes);
    let sample =
        Sample::parse(&config(SampleType::STACK_USER | SampleType::WEIGHT, 0), &mut buf).unwrap();
    assert_eq!(sample.stack_user, Some(vec![]));
    assert_eq!(sample.weight, Some(17));
}

fn header(ty: u32, misc: u16, payload: usize) -> RecordHeader {
    RecordHeader { type_: ty, misc, size: (payload + 8) as u16 }
}

#[test]
fn record_with_trailer_consumes_everything() {
    let mut config = config(SampleType::TID | SampleType::TIME | SampleType::CPU, 0);
    config.sample_id_all = true;
    let mut bytes = words(&[5, 6]); // lost: id, lost
    bytes.extend(100u32.to_le_bytes());
    bytes.extend(200u32.to_le_bytes());
    bytes.extend(words(&[777]));
    bytes.extend(3u32.to_le_bytes());
    bytes.extend(0u32.to_le_bytes());
    for k in 0..=bytes.len() {
        let mut buf = ByteBuffer::Split([&bytes[..k], &bytes[k..]]);
        let record =
            Record::parse(&config, &header(RecordType::LOST, 0, bytes.len()), &mut buf).unwrap();
        assert_eq!(buf.len(), 0);
        assert_eq!(record.ty, RecordType(RecordType::LOST));
        assert!(matches!(record.event, RecordEvent::Lost(l) if l.id == 5 && l.lost == 6));
        assert_eq!(
            record.sample_id,
            SampleId {
                pid: Some(100),
                tid: Some(200),
                time: Some(777),
                id: None,
                stream_id: None,
                cpu: Some(3)
            }
        );
    }
    // Too short for the trailer, or for the payload before it.
    let mut buf = ByteBuffer::Single(&bytes[..23]);
    let short = Record::parse(&config, &header(RecordType::LOST, 0, 23), &mut buf);
    assert!(matches!(short, Err(ParseError::Eof)));
    let mut buf = ByteBuffer::Single(&bytes[..39]);
    let short = Record::parse(&config, &header(RecordType::LOST, 0, 39), &mut buf);
    assert!(matches!(short, Err(ParseError::Eof)));
}

#[test]
fn record_of_unknown_kind_keeps_its_bytes() {
    let bytes = [1u8, 2, 3, 4, 5];
    let mut buf = ByteBuffer::Single(&bytes);
    let record = Record::parse(&config(0, 0), &header(4711, 0x4002, 5), &mut buf).unwrap();
    assert_eq!(record.ty, RecordType(4711));
    assert_eq!(record.misc, RecordMiscFlags::new(0x4002));
    assert_eq!(record.misc.cpumode().0, 2);
    assert!(record.misc.contains(RecordMiscFlags::EXACT_IP));
    assert!(matches!(record.event, RecordEvent::Unknown(ref b) if b == &bytes));
    assert_eq!(record.sample_id, SampleId::empty());
    assert_eq!(buf.len(), 0);
}

#[test]
fn record_mmap_and_sample_name_their_source_themselves() {
    let mut cfg = config(SampleType::TID | SampleType::TIME, 0);
    cfg.sample_id_all = true;

    let mut bytes = Vec::new();
    bytes.extend(11u32.to_le_bytes());
    bytes.extend(12u32.to_le_bytes());
    bytes.extend(words(&[0x7000, 0x1000, 0]));
    bytes.extend(b"/bin/true\0\0\0");
    let mut buf = ByteBuffer::Single(&bytes);
    let record =
        Record::parse(&cfg, &header(RecordType::MMAP, 0, bytes.len()), &mut buf).unwrap();
    match record.event {
        RecordEvent::Mmap(ref m) => {
            assert_eq!((m.pid, m.tid, m.addr, m.len, m.pgoff), (11, 12, 0x7000, 0x1000, 0));
            assert_eq!(m.filename, b"/bin/true");
        }
        _ => panic!("expected an mmap record"),
    }
    assert_eq!(record.sample_id.pid, Some(11));
    assert_eq!(record.sample_id.tid, Some(12));
    assert_eq!(record.sample_id.time, None);

    let mut bytes = Vec::new();
    bytes.extend(21u32.to_le_bytes());
    bytes.extend(22u32.to_le_bytes());
    bytes.extend(words(&[555]));
    let mut buf = ByteBuffer::Single(&bytes);
    let record =
        Record::parse(&cfg, &header(RecordType::SAMPLE, 0, bytes.len()), &mut buf).unwrap();
    assert!(matches!(record.event, RecordEvent::Sample(_)));
    assert_eq!(record.sample_id.pid, Some(21));
    assert_eq!(record.sample_id.tid, Some(22));
    assert_eq!(record.sample_id.time, Some(555));
}

#[test]
fn record_switch_kinds() {
    let bytes = [];
    let mut buf = ByteBuffer::Single(&bytes);
    let record = Record::parse(&config(0, 0), &header(RecordType::SWITCH, 0, 0), &mut buf).unwrap();
    assert!(matches!(record.event, RecordEvent::Switch));

    let mut bytes = Vec::new();
    bytes.extend(5u32.to_le_bytes());
    bytes.extend(6u32.to_le_bytes());
    let mut buf = ByteBuffer::Single(&bytes);
    let out = header(RecordType::SWITCH_CPU_WIDE, RecordMiscFlags::SWITCH_OUT, 8);
    let record = Record::parse(&config(0, 0), &out, &mut buf).unwrap();
    match record.event {
        RecordEvent::SwitchCpuWide(s) => {
            assert_eq!(s, SwitchCpuWide::SwitchOut { prev_pid: 5, prev_tid: 6 });
            assert_eq!((s.pid(), s.tid()), (5, 6));
        }
        _ => panic!("expected a switch record"),
    }
    let mut buf = ByteBuffer::Single(&bytes);
    let into = header(RecordType::SWITCH_CPU_WIDE, 0, 8);
    let record = Record::parse(&config(0, 0), &into, &mut buf).unwrap();
    assert!(matches!(
        record.event,
        RecordEvent::SwitchCpuWide(SwitchCpuWide::SwitchIn { next_pid: 5, next_tid: 6 })
    ));
}

#[test]
fn sample_id_identifier_overrides_id() {
    let mut cfg = config(SampleType::ID | SampleType::IDENTIFIER | SampleType::STREAM_ID, 0);
    cfg.sample_id_all = true;
    assert_eq!(SampleId::expected_size(&cfg), 24);
    let bytes = words(&[1, 2, 3]);
    let mut buf = ByteBuffer::Single(&bytes);
    let id = SampleId::parse(&cfg, &mut buf).unwrap();
    assert_eq!(id.id, Some(3));
    assert_eq!(id.stream_id, Some(2));
    let mut short = ByteBuffer::Single(&bytes[..23]);
    assert_eq!(SampleId::parse(&cfg, &mut short), Err(ParseError::Eof));
}
