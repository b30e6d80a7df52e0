use perf_event::events::dynamic::{
    Dynamic, DynamicBuilder, ErrorData, FieldBits, FieldDest,
};
use perf_event::events::util::CachedPmuType;
use perf_event::events::text::{
    bytes_eq, find_byte, parse_hex, parse_int, parse_pmu_type, trim_end, trim_start, IntError,
};

// The description of a PMU with three fields: `event` in the low half of
// `config`, `param` above it, and `flag` in bit 0 of `config1`.
fn dyn_pmu() -> DynamicBuilder {
    let mut builder = Dynamic::builder(66666);
    builder.add_format("event", "config:0-31\n").unwrap();
    builder.add_format("param", "config:32-63\n").unwrap();
    builder.add_format("flag", "config1:0\n").unwrap();
    builder
}

fn value_of(builder: &DynamicBuilder, name: &str) -> Option<u64> {
    let fields = builder.fields();
    let found: Vec<_> = fields.iter().filter(|(n, _)| n == name).collect();
    assert_eq!(found.len(), 1);
    found[0].1
}

#[test]
fn parse_hex_sanity() {
    assert_eq!(parse_hex("0xFFFFFFFF"), Ok(0xFFFFFFFF));
}

#[test]
fn dynamic_msr_event() {
    // The `msr` PMU as the kernel describes it: one field, and the `tsc`
    // event that sets it.
    let mut builder = Dynamic::builder(9);
    builder.add_format("event", "config:0-63\n").unwrap();
    builder.event("event=0x00\n").unwrap();
    let _event = builder.build().unwrap();
}

#[test]
fn dynamic_pmu_evt1() {
    let mut builder = dyn_pmu();
    builder.event("event=0xFFFFFFFF,flag,param=?\n").unwrap();

    assert_eq!(value_of(&builder, "param"), None);
    assert_eq!(value_of(&builder, "flag"), Some(1));
    assert_eq!(value_of(&builder, "event"), Some(0xFFFFFFFF));

    let error = builder.build().unwrap_err();
    assert_eq!(error.param(), "param");
    builder.field("param", 0x770).unwrap();
    let event = builder.build().unwrap();

    assert_eq!(event.ty, 66666);
    assert_eq!(event.config, 0x770FFFFFFFF);
    assert_eq!(event.config1, 0x1);
    assert_eq!(event.config2, 0);
}

#[test]
fn dynamic_pmu_evt2() {
    let mut builder = dyn_pmu();
    builder.event("event=0xABCDEF,param=0x45,flag=0\n").unwrap();

    assert_eq!(value_of(&builder, "param"), Some(0x45));
    assert_eq!(value_of(&builder, "flag"), Some(0x00));
    assert_eq!(value_of(&builder, "event"), Some(0xABCDEF));

    let event = builder.build().unwrap();
    assert_eq!(event.ty, 66666);
    assert_eq!(event.config, 0x4500ABCDEF);
    assert_eq!(event.config1, 0);
    assert_eq!(event.config2, 0);
}

#[test]
fn dynamic_pmu_empty() {
    let builder = dyn_pmu();

    assert_eq!(value_of(&builder, "param"), None);
    assert_eq!(value_of(&builder, "flag"), None);
    assert_eq!(value_of(&builder, "event"), None);
}

#[test]
fn dynamic_params_lists_unset_fields_in_order() {
    let mut builder = dyn_pmu();
    assert_eq!(builder.params(), vec!["event", "param", "flag"]);
    builder.field("param", 1).unwrap();
    assert_eq!(builder.params(), vec!["event", "flag"]);
}

#[test]
fn dynamic_field_errors() {
    let mut builder = dyn_pmu();
    let unknown = builder.field("nope", 1).unwrap_err();
    assert!(matches!(unknown.data, ErrorData::UnknownField(ref n) if n == b"nope"));
    let too_large = builder.field("flag", 2).unwrap_err();
    assert!(matches!(too_large.data, ErrorData::ValueTooLarge));
    assert_eq!(value_of(&builder, "flag"), None);
    builder.field("flag", 1).unwrap();
    assert_eq!(value_of(&builder, "flag"), Some(1));
}

#[test]
fn dynamic_format_errors() {
    let mut builder = Dynamic::builder(1);
    let e = builder.add_format("a", "config 0-3").unwrap_err();
    assert!(matches!(e.data, ErrorData::MissingColon));
    let e = builder.add_format("a", "config3:0-3").unwrap_err();
    assert!(matches!(e.data, ErrorData::UnknownTarget(ref t) if t == b"config3"));
    let e = builder.add_format("a", "config:x").unwrap_err();
    assert!(matches!(e.data, ErrorData::InvalidInteger(IntError::InvalidDigit)));
    let e = builder.add_format("a", "config:").unwrap_err();
    assert!(matches!(e.data, ErrorData::InvalidInteger(IntError::Empty)));
    let e = builder.add_format("a", "config:0-64").unwrap_err();
    assert!(matches!(e.data, ErrorData::InvalidInteger(IntError::Overflow)));
    let e = builder.add_format("a", "config:99999999999").unwrap_err();
    assert!(matches!(e.data, ErrorData::InvalidInteger(IntError::Overflow)));
    assert!(builder.fields().is_empty());
    builder.add_format("a", "config2:7 \n").unwrap();
    builder.field("a", 1).unwrap();
    assert_eq!(builder.build().unwrap().config2, 0x80);
}

#[test]
fn dynamic_event_errors_keep_earlier_terms() {
    let mut builder = dyn_pmu();
    let e = builder.event("event=0x12,missing=1,flag").unwrap_err();
    assert!(matches!(e.data, ErrorData::UnknownField(ref n) if n == b"missing"));
    assert_eq!(value_of(&builder, "event"), Some(0x12));
    assert_eq!(value_of(&builder, "flag"), None);

    let e = builder.event("flag=zz").unwrap_err();
    assert!(matches!(e.data, ErrorData::InvalidInteger(IntError::InvalidDigit)));
    let e = builder.event("").unwrap_err();
    assert!(matches!(e.data, ErrorData::UnknownField(ref n) if n.is_empty()));
}

#[test]
fn dynamic_add_field_replaces_same_name() {
    let mut builder = Dynamic::builder(3);
    builder.add_field("x", FieldDest::Config, FieldBits::Bit(0));
    builder.field("x", 1).unwrap();
    builder.add_field("x", FieldDest::Config1, FieldBits::Range { lo: 4, hi: 7 });
    assert_eq!(builder.fields(), vec![("x".to_string(), None)]);
    builder.field("x", 0xf).unwrap();
    let event = builder.build().unwrap();
    assert_eq!((event.config, event.config1), (0, 0xf0));
}

#[test]
fn field_bits_mask_shift_validate() {
    assert_eq!(FieldBits::Bit(5).mask(), 0x20);
    assert_eq!(FieldBits::Bit(5).shift(), 5);
    assert_eq!(FieldBits::Range { lo: 8, hi: 15 }.mask(), 0xff00);
    assert_eq!(FieldBits::Range { lo: 8, hi: 15 }.shift(), 8);
    assert_eq!(FieldBits::Range { lo: 0, hi: 63 }.mask(), u64::MAX);
    assert!(FieldBits::Range { lo: 8, hi: 15 }.validate(0xff));
    assert!(!FieldBits::Range { lo: 8, hi: 15 }.validate(0x100));
    assert!(FieldBits::Bit(63).validate(1));
    assert!(!FieldBits::Bit(63).validate(2));
}

#[test]
fn parse_int_forms() {
    assert_eq!(parse_int(b"0", 10, u64::MAX), Ok(0));
    assert_eq!(parse_int(b"+42", 10, u64::MAX), Ok(42));
    assert_eq!(parse_int(b"", 10, u64::MAX), Err(IntError::Empty));
    assert_eq!(parse_int(b"+", 10, u64::MAX), Err(IntError::InvalidDigit));
    assert_eq!(parse_int(b"-1", 10, u64::MAX), Err(IntError::InvalidDigit));
    assert_eq!(parse_int(b"12a", 10, u64::MAX), Err(IntError::InvalidDigit));
    assert_eq!(parse_int(b"18446744073709551615", 10, u64::MAX), Ok(u64::MAX));
    assert_eq!(parse_int(b"18446744073709551616", 10, u64::MAX), Err(IntError::Overflow));
    assert_eq!(parse_int(b"256", 10, 255), Err(IntError::Overflow));
    assert_eq!(parse_int(b"255", 10, 255), Ok(255));
    // An error is the first one met from the left.
    assert_eq!(parse_int(b"999x", 10, 255), Err(IntError::Overflow));
    assert_eq!(parse_int(b"9x99", 10, 255), Err(IntError::InvalidDigit));
    assert_eq!(parse_int(b"zZ", 36, u64::MAX), Ok(35 * 36 + 35));
}

#[test]
fn parse_hex_forms() {
    assert_eq!(parse_hex("ff"), Ok(0xff));
    assert_eq!(parse_hex("0x"), Err(IntError::Empty));
    assert_eq!(parse_hex(""), Err(IntError::Empty));
    assert_eq!(parse_hex("0xg"), Err(IntError::InvalidDigit));
    assert_eq!(parse_hex("0xffffffffffffffff"), Ok(u64::MAX));
    assert_eq!(parse_hex("0x10000000000000000"), Err(IntError::Overflow));
    assert_eq!(parse_hex("0X10"), Err(IntError::InvalidDigit));
}

#[test]
fn parse_hex_agrees_with_std() {
    for text in ["0", "7f", "0xdeadBEEF", "+1f", "0x+2", "12345678901234567"] {
        let stripped = text.strip_prefix("0x").unwrap_or(text);
        assert_eq!(parse_hex(text).ok(), u64::from_str_radix(stripped, 16).ok());
    }
}

#[test]
fn pmu_type_text() {
    assert_eq!(parse_pmu_type("66666\n"), Ok(66666));
    assert_eq!(parse_pmu_type("  7 "), Ok(7));
    assert_eq!(parse_pmu_type("4294967295"), Ok(u32::MAX));
    assert_eq!(parse_pmu_type("4294967296"), Err(IntError::Overflow));
    assert_eq!(parse_pmu_type("\n"), Err(IntError::Empty));
    assert_eq!(parse_pmu_type("1 2"), Err(IntError::InvalidDigit));
}

#[test]
fn text_helpers() {
    assert_eq!(trim_end(b"ab \t\r\n"), b"ab");
    assert_eq!(trim_end(b" \n"), b"");
    assert_eq!(trim_end(b"a b"), b"a b");
    assert_eq!(trim_start(b" \n ab "), b"ab ");
    assert_eq!(find_byte(b"a:b:c", b':'), 1);
    assert_eq!(find_byte(b"abc", b':'), 3);
    assert!(bytes_eq(b"abc", b"abc"));
    assert!(!bytes_eq(b"abc", b"abd"));
    assert!(!bytes_eq(b"abc", b"ab"));
}

#[test]
fn dynamic_unit_needs_an_event() {
    let mut builder = dyn_pmu();
    let error = builder.unit(Some("Frogs\n")).unwrap_err();
    assert!(matches!(error.data, ErrorData::MissingEvent));
    // An event file that fails part way does not count as an event.
    assert!(builder.event("event=1,nope=2").is_err());
    assert!(builder.unit(None).is_err());
    builder.event("event=1").unwrap();
    assert_eq!(builder.unit(Some("Frogs\n")).unwrap(), Some(b"Frogs".to_vec()));
    assert_eq!(builder.unit(Some("  a b \t\r\n")).unwrap(), Some(b"  a b".to_vec()));
    assert_eq!(builder.unit(Some("")).unwrap(), Some(Vec::new()));
    assert_eq!(builder.unit(None).unwrap(), None);
}

#[test]
fn cached_pmu_type_reads_once() {
    let mut cache = CachedPmuType::new("msr");
    assert_eq!(cache.name(), "msr");
    assert_eq!(cache.get(), None);
    assert_eq!(cache.read("x\n"), Err(IntError::InvalidDigit));
    assert_eq!(cache.get(), None);
    assert_eq!(cache.read("17\n"), Ok(17));
    assert_eq!(cache.get(), Some(17));
    assert_eq!(cache.read(""), Err(IntError::Empty));
    assert_eq!(cache.get(), Some(17));
    // White space before the number is not skipped.
    assert_eq!(cache.read(" 18"), Err(IntError::InvalidDigit));
    // The number 0 is what an empty cache holds.
    assert_eq!(cache.read("0"), Ok(0));
    assert_eq!(cache.get(), None);
}

#[test]
fn trimming_agrees_with_std_on_unicode_white_space() {
    let spaces = [
        "\u{9}", "\u{a}", "\u{b}", "\u{c}", "\u{d}", " ", "\u{85}", "\u{a0}", "\u{1680}",
        "\u{2000}", "\u{2005}", "\u{200a}", "\u{2028}", "\u{2029}", "\u{202f}", "\u{205f}",
        "\u{3000}",
    ];
    // Characters that share bytes with white space but are none.
    let others = ["\u{200b}", "\u{8}", "\u{e}", "\u{86}", "\u{a1}", "\u{1681}", "\u{2060}", "é", "x"];
    for a in spaces.iter().chain(others.iter()) {
        for b in spaces.iter().chain(others.iter()) {
            let text = format!("{a}{b}word{b}{a}");
            assert_eq!(trim_end(text.as_bytes()), text.trim_end().as_bytes(), "{text:?}");
            assert_eq!(trim_start(text.as_bytes()), text.trim_start().as_bytes(), "{text:?}");
        }
    }
    assert_eq!(parse_pmu_type("\u{a0}12\u{2028}\n"), Ok(12));
    let mut builder = Dynamic::builder(1);
    builder.add_format("a", "config:3\u{3000}\n").unwrap();
    builder.event("a=0x1\u{85}").unwrap();
    assert_eq!(builder.build().unwrap().config, 8);
}
