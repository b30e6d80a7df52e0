use perf_event::events::msr::{MSRConfig, MSREvent};
use perf_event::events::raw::Raw;
use perf_event::events::x86::msr::{Msr, MsrId};
use perf_event::events::{
    Breakpoint, BreakpointAccess, Cache, CacheOp, CacheResult, Event, EventAttr, Hardware,
    Software, WhichCache,
};
use perf_event::events::dynamic::Dynamic;
use perf_event::flags::SampleSkid;

fn attrs_of<E: Event>(event: E) -> EventAttr {
    let mut attr = EventAttr { type_: 99, config: 98, config1: 97, config2: 96, bp_type: 95 };
    event.update_attrs(&mut attr);
    attr
}

#[test]
fn hardware_and_software_events() {
    let attr = attrs_of(Hardware(Hardware::BRANCH_MISSES));
    assert_eq!(attr, EventAttr { type_: 0, config: 5, config1: 97, config2: 96, bp_type: 95 });
    let attr = attrs_of(Software::new(Software::DUMMY));
    assert_eq!(attr, EventAttr { type_: 1, config: 9, config1: 97, config2: 96, bp_type: 95 });
}

#[test]
fn cache_event_config() {
    let cache = Cache {
        which: WhichCache(WhichCache::LL),
        operation: CacheOp(CacheOp::WRITE),
        result: CacheResult(CacheResult::MISS),
    };
    assert_eq!(cache.as_config(), 0x1_01_02);
    let attr = attrs_of(cache);
    assert_eq!((attr.type_, attr.config), (3, 0x1_01_02));
}

#[test]
fn raw_event() {
    let raw = Raw::new(0x11).config1(2).config2(3);
    assert_eq!(raw, Raw { config: 0x11, config1: 2, config2: 3 });
    assert_eq!(raw.config(7).config, 7);
    let attr = attrs_of(raw);
    assert_eq!(attr, EventAttr { type_: 4, config: 0x11, config1: 2, config2: 3, bp_type: 95 });
}

#[test]
fn msr_and_dynamic_events() {
    let attr = attrs_of(Msr::new(13, MsrId(MsrId::SMI)));
    assert_eq!((attr.type_, attr.config), (13, 4));
    let attr = attrs_of(MSREvent::with_type(14, MSRConfig(MSRConfig::MPERF)));
    assert_eq!((attr.type_, attr.config), (14, 2));
    let attr = attrs_of(Dynamic { ty: 20, config: 1, config1: 2, config2: 3 });
    assert_eq!(attr, EventAttr { type_: 20, config: 1, config1: 2, config2: 3, bp_type: 95 });
}

#[test]
fn breakpoints() {
    assert_eq!(Breakpoint::execute(0x400), Breakpoint::Code { addr: 0x400 });
    assert_eq!(
        Breakpoint::read(0x10, 4),
        Breakpoint::Data { access: BreakpointAccess::new(1), addr: 0x10, len: 4 }
    );
    assert_eq!(
        Breakpoint::write(0x10, 8),
        Breakpoint::Data { access: BreakpointAccess::new(2), addr: 0x10, len: 8 }
    );
    assert_eq!(
        Breakpoint::read_write(0x10, 1),
        Breakpoint::Data { access: BreakpointAccess::new(3), addr: 0x10, len: 1 }
    );
    let mut attr = EventAttr::new();
    attr.config = 77;
    Breakpoint::read_write(0x10, 2).update_attrs_with(&mut attr, 8);
    assert_eq!(attr, EventAttr { type_: 5, config: 0, config1: 0x10, config2: 2, bp_type: 3 });
    Breakpoint::execute(0x400).update_attrs_with(&mut attr, 8);
    assert_eq!(attr, EventAttr { type_: 5, config: 0, config1: 0x400, config2: 8, bp_type: 4 });
}

#[test]
fn sample_skid_numbers() {
    assert_eq!(SampleSkid::Arbitrary.precise_ip(), 0);
    assert_eq!(SampleSkid::Constant.precise_ip(), 1);
    assert_eq!(SampleSkid::RequestZero.precise_ip(), 2);
    assert_eq!(SampleSkid::RequireZero.precise_ip(), 3);
}
