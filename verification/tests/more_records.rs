use perf_event::buffer::{ByteBuffer, ParseError};
use perf_event::samples::aux::{Aux, AuxFlags, AuxPmuFormatType};
use perf_event::samples::aux_output_hw_id::AuxOutputHwId;
use perf_event::samples::bpf_event::{BpfEvent, BpfEventType};
use perf_event::samples::cgroup::Cgroup;
use perf_event::samples::config::ParseConfig;
use perf_event::samples::data_source::{DataSource, MemOp, Txn};
use perf_event::samples::itrace_start::ITraceStart;
use perf_event::samples::ksymbol::{KSymbol, KSymbolFlags, KSymbolType};
use perf_event::samples::lost_samples::LostSamples;
use perf_event::samples::mmap2::Mmap2;
use perf_event::samples::namespaces::{NamespaceEntry, Namespaces};
use perf_event::samples::read::Read;
use perf_event::samples::read_value::ReadValue;
use perf_event::samples::bits::SampleRegsAbi;
use perf_event::samples::registers::{
    Arm64RegMask, PowerPCRegMask, RegMask, Registers, RiscvRegMask, S390RegMask, X86RegMask,
};
use perf_event::samples::text_poke::TextPoke;

fn words(values: &[u64]) -> Vec<u8> {
    values.iter().flat_map(|v| v.to_le_bytes()).collect()
}

fn cfg() -> ParseConfig {
    ParseConfig::default()
}

#[test]
fn aux_record() {
    let bytes = words(&[0x100, 0x40, 0x0105]);
    let mut buf = ByteBuffer::Single(&bytes);
    let aux = Aux::parse(&cfg(), &mut buf).unwrap();
    assert_eq!((aux.aux_offset, aux.aux_size), (0x100, 0x40));
    assert_eq!(aux.flags, AuxFlags::new(0x0105));
    assert!(aux.flags.contains(AuxFlags::TRUNCATED | AuxFlags::PARTIAL));
    assert!(!aux.flags.contains(AuxFlags::OVERWRITE));
    assert_eq!(aux.flags.pmu_format_type(), AuxPmuFormatType(AuxPmuFormatType::CORESIGHT_RAW));
    assert_eq!(aux.flags.bits(), 0x0105);
    let mut short = ByteBuffer::Single(&bytes[..23]);
    assert_eq!(Aux::parse(&cfg(), &mut short), Err(ParseError::Eof));
}

#[test]
fn small_fixed_records() {
    let bytes = words(&[0x1234]);
    let mut buf = ByteBuffer::Single(&bytes);
    assert_eq!(AuxOutputHwId::parse(&cfg(), &mut buf), Ok(AuxOutputHwId { hw_id: 0x1234 }));
    let mut buf = ByteBuffer::Single(&bytes);
    assert_eq!(LostSamples::parse(&cfg(), &mut buf), Ok(LostSamples { lost: 0x1234 }));
    let mut buf = ByteBuffer::Single(&bytes);
    assert_eq!(ITraceStart::parse(&cfg(), &mut buf), Ok(ITraceStart { pid: 0x1234, tid: 0 }));
    let mut buf = ByteBuffer::Single(&bytes[..7]);
    assert_eq!(ITraceStart::parse(&cfg(), &mut buf), Err(ParseError::Eof));
}

#[test]
fn bpf_event_record() {
    let bytes = [1u8, 0, 2, 0, 9, 0, 0, 0, 1, 2, 3, 4, 5, 6, 7, 8, 0xff];
    let mut buf = ByteBuffer::Split([&bytes[..10], &bytes[10..]]);
    let event = BpfEvent::parse(&cfg(), &mut buf).unwrap();
    assert_eq!(event.ty, BpfEventType(BpfEventType::PROG_LOAD));
    assert_eq!((event.flags, event.id), (2, 9));
    assert_eq!(event.tag, [1, 2, 3, 4, 5, 6, 7, 8]);
    assert_eq!(buf.len(), 1);
    let mut short = ByteBuffer::Single(&bytes[..15]);
    assert!(BpfEvent::parse(&cfg(), &mut short).is_err());
}

#[test]
fn ksymbol_record() {
    let mut bytes = words(&[0xffff_0000]);
    bytes.extend(64u32.to_le_bytes());
    bytes.extend(1u16.to_le_bytes());
    bytes.extend(1u16.to_le_bytes());
    bytes.extend(b"bpf_prog\0\0\0\0");
    let mut buf = ByteBuffer::Single(&bytes);
    let sym = KSymbol::parse(&cfg(), &mut buf).unwrap();
    assert_eq!((sym.addr, sym.len), (0xffff_0000, 64));
    assert_eq!(sym.ksym_type, KSymbolType(KSymbolType::BPF));
    assert_eq!(sym.flags, KSymbolFlags::new(KSymbolFlags::UNREGISTER));
    assert_eq!(sym.name, b"bpf_prog");
    assert_eq!(buf.len(), 0);
}

#[test]
fn string_records_strip_only_trailing_nuls() {
    let mut bytes = words(&[7]);
    bytes.extend(b"/a\0b\0\0");
    let mut buf = ByteBuffer::Single(&bytes);
    let cgroup = Cgroup::parse(&cfg(), &mut buf).unwrap();
    assert_eq!(cgroup.id, 7);
    assert_eq!(cgroup.path, b"/a\0b");

    let bytes = words(&[7]);
    let mut buf = ByteBuffer::Single(&bytes);
    assert_eq!(Cgroup::parse(&cfg(), &mut buf).unwrap().path, b"");
    let all_nul = [0u8; 12];
    let mut buf = ByteBuffer::Single(&all_nul);
    assert_eq!(Cgroup::parse(&cfg(), &mut buf).unwrap().path, b"");
}

#[test]
fn mmap2_record() {
    let mut bytes = Vec::new();
    bytes.extend(1u32.to_le_bytes());
    bytes.extend(2u32.to_le_bytes());
    bytes.extend(words(&[0x1000, 0x2000, 0x3000]));
    bytes.extend(8u32.to_le_bytes());
    bytes.extend(9u32.to_le_bytes());
    bytes.extend(words(&[0x4000, 0x5000]));
    bytes.extend(5u32.to_le_bytes());
    bytes.extend(6u32.to_le_bytes());
    bytes.extend(b"libc.so\0");
    let mut buf = ByteBuffer::Single(&bytes);
    let m = Mmap2::parse(&cfg(), &mut buf).unwrap();
    assert_eq!((m.pid, m.tid, m.addr, m.len, m.pgoff), (1, 2, 0x1000, 0x2000, 0x3000));
    assert_eq!((m.maj, m.min, m.ino, m.ino_generation), (8, 9, 0x4000, 0x5000));
    assert_eq!((m.prot, m.flags), (5, 6));
    assert_eq!(m.filename, b"libc.so");
    let mut short = ByteBuffer::Single(&bytes[..63]);
    assert!(Mmap2::parse(&cfg(), &mut short).is_err());
}

#[test]
fn namespaces_record() {
    let mut bytes = Vec::new();
    bytes.extend(1u32.to_le_bytes());
    bytes.extend(2u32.to_le_bytes());
    bytes.extend(words(&[7]));
    for i in 0..7u64 {
        bytes.extend(words(&[10 + i, 100 + i]));
    }
    let mut buf = ByteBuffer::Single(&bytes);
    let ns = Namespaces::parse(&cfg(), &mut buf).unwrap();
    assert_eq!((ns.pid, ns.tid, ns.namespaces.len()), (1, 2, 7));
    assert_eq!(ns.network(), Some(NamespaceEntry { dev: 10, inode: 100 }));
    assert_eq!(ns.ipc(), Some(NamespaceEntry { dev: 12, inode: 102 }));
    assert_eq!(ns.pid(), Some(NamespaceEntry { dev: 13, inode: 103 }));
    assert_eq!(ns.user(), Some(NamespaceEntry { dev: 14, inode: 104 }));
    assert_eq!(ns.uts(), Some(NamespaceEntry { dev: 11, inode: 101 }));
    assert_eq!(ns.cgroup(), Some(NamespaceEntry { dev: 16, inode: 106 }));
    assert_eq!(buf.len(), 0);

    let mut short = ByteBuffer::Single(&bytes[..bytes.len() - 1]);
    assert!(matches!(Namespaces::parse(&cfg(), &mut short), Err(ParseError::Eof)));

    let few = {
        let mut b = Vec::new();
        b.extend(1u32.to_le_bytes());
        b.extend(2u32.to_le_bytes());
        b.extend(words(&[1, 10, 100]));
        b
    };
    let mut buf = ByteBuffer::Single(&few);
    let ns = Namespaces::parse(&cfg(), &mut buf).unwrap();
    assert_eq!(ns.network(), Some(NamespaceEntry { dev: 10, inode: 100 }));
    assert_eq!(ns.uts(), None);
    assert_eq!(ns.cgroup(), None);
}

#[test]
fn text_poke_record() {
    let mut bytes = words(&[0xffff_8000]);
    bytes.extend(2u16.to_le_bytes());
    bytes.extend(3u16.to_le_bytes());
    bytes.extend([1, 2, 3, 4, 5, 6]);
    let mut buf = ByteBuffer::Single(&bytes);
    let poke = TextPoke::parse(&cfg(), &mut buf).unwrap();
    assert_eq!(poke.addr, 0xffff_8000);
    assert_eq!(poke.old_bytes, vec![1, 2]);
    assert_eq!(poke.new_bytes, vec![3, 4, 5]);
    assert_eq!(buf.len(), 1);
    let mut short = ByteBuffer::Single(&bytes[..16]);
    assert!(matches!(TextPoke::parse(&cfg(), &mut short), Err(ParseError::Eof)));
}

#[test]
fn read_record() {
    let mut bytes = Vec::new();
    bytes.extend(4u32.to_le_bytes());
    bytes.extend(5u32.to_le_bytes());
    bytes.extend(words(&[77]));
    let mut buf = ByteBuffer::Single(&bytes);
    let read = Read::parse(&cfg(), &mut buf).unwrap();
    assert_eq!((read.pid, read.tid), (4, 5));
    assert!(matches!(read.values, ReadValue::Counter(v) if v.value == 77));
}

#[test]
fn data_source_fields() {
    let source = DataSource(
        0x2 | (0x8 << 5) | (0x4 << 19) | (0x2 << 24) | (0x10 << 26) | (0x3 << 33) | (1 << 37)
            | (1 << 38),
    );
    assert_eq!(source.mem_op(), MemOp::new(MemOp::LOAD));
    assert_eq!(source.mem_lvl().bits(), 0x8);
    assert_eq!(source.mem_snoop().bits(), 0x4);
    assert_eq!(source.mem_lock().bits(), 0x2);
    assert_eq!(source.mem_dtlb().bits(), 0x10);
    assert_eq!(source.mem_lvl_num().0, 3);
    assert!(source.mem_remote());
    assert_eq!(source.mem_snoopx().bits(), 1);
    assert_eq!(DataSource(3 << 38).mem_snoopx().bits(), 3);
    assert!(!DataSource(0).mem_remote());
    assert_eq!(Txn::new(0xdead_0000_0021).abort(), 0xdead);
    assert!(Txn::new(0x21).contains(Txn::ELISION | Txn::CONFLICT));
}

#[test]
fn register_masks() {
    assert_eq!(X86RegMask::new(X86RegMask::IP | X86RegMask::SP).as_bits(), 0x180);
    assert_eq!(X86RegMask::XMM0, 0x3_0000_0000);
    assert_eq!(Arm64RegMask::new(Arm64RegMask::PC).as_bits(), 1 << 32);
    assert_eq!(5u64.as_bits(), 5);
}

#[test]
fn more_register_masks() {
    assert_eq!(PowerPCRegMask::R0, 1);
    assert_eq!(PowerPCRegMask::NIP, 1 << 32);
    assert_eq!(PowerPCRegMask::new(PowerPCRegMask::MSR).as_bits(), 1 << 33);
    assert_eq!(RiscvRegMask::new(RiscvRegMask::PC | RiscvRegMask::T6).as_bits(), 1 | 1 << 31);
    assert_eq!(S390RegMask::new(S390RegMask::PC).as_bits(), 1 << 33);
}

#[test]
fn wide_registers_take_two_slots() {
    let regs = Registers {
        abi: SampleRegsAbi(SampleRegsAbi::ABI_64),
        mask: X86RegMask::AX | X86RegMask::XMM0 | X86RegMask::XMM2,
        regs: vec![1, 0x10, 0x20, 0x30, 0x40],
    };
    assert_eq!(regs.reg(0), Some(1));
    assert_eq!(regs.reg128(32), Some((0x20u128 << 64) | 0x10));
    assert_eq!(regs.reg128(34), None);
    assert_eq!(regs.reg128(36), Some((0x40u128 << 64) | 0x30));
    let cut = Registers { regs: vec![1, 0x10, 0x20, 0x30], ..regs };
    assert_eq!(cut.reg128(36), None);
}
