//! Events of a PMU that the kernel describes at run time.
//!
//! The kernel lists such a PMU in a directory of small text files: its
//! kind, a format file for each named field that says which bits of which
//! attribute the field takes, and event files that give values to fields.
//! This module holds what is made of those texts; reading the files is left
//! to the caller.

use crate::events::text::{
    bytes_eq,
    find_byte,
    index_of,
    parse_hex_bytes,
    parse_u32,
    spec_parse_hex,
    spec_parse_u32,
    spec_trim_end,
    trim_end,
    IntError,
};
use crate::events::{Event, EventAttr};
use vstd::prelude::*;
use vstd::slice::{slice_subrange, slice_to_vec};
use vstd::string::StringSliceAdditionalSpecFns;
use vstd::utf8::encode_utf8;

verus! {

/// An event of a PMU that the kernel describes at run time.
#[derive(Clone, Copy, Debug, PartialEq, Eq, Structural)]
pub struct Dynamic {
    pub ty: u32,
    pub config: u64,
    pub config1: u64,
    pub config2: u64,
}

impl Dynamic {
    /// A builder for events of the PMU whose kind is `ty`.
    pub fn builder(ty: u32) -> (r: DynamicBuilder)
        ensures
            r.ty() == ty,
            r.fields_view().len() == 0,
            !r.has_event(),
            r.wf(),
    {
        DynamicBuilder::new(ty)
    }
}

impl Event for Dynamic {
    open spec fn spec_update_attrs(self, attr: EventAttr) -> EventAttr {
        EventAttr {
            type_: self.ty,
            config: self.config,
            config1: self.config1,
            config2: self.config2,
            ..attr
        }
    }

    fn update_attrs(self, attr: &mut EventAttr) {
        attr.type_ = self.ty;
        attr.config = self.config;
        attr.config1 = self.config1;
        attr.config2 = self.config2;
    }
}

/// The attribute that holds a field.
#[derive(Clone, Copy, Debug, PartialEq, Eq, Hash, Structural)]
pub enum FieldDest {
    Config,
    Config1,
    Config2,
}

/// The bits that a field takes.
#[derive(Clone, Copy, Debug, PartialEq, Eq, Hash, Structural)]
pub enum FieldBits {
    /// A single bit.
    Bit(u32),
    /// The bits from `lo` up to and including `hi`.
    Range { lo: u32, hi: u32 },
}

impl FieldBits {
    /// Whether every bit number is below 64.
    pub open spec fn wf(self) -> bool {
        match self {
            FieldBits::Bit(bit) => bit < 64,
            FieldBits::Range { lo, hi } => lo < 64 && hi < 64,
        }
    }

    /// The bits of the field as a mask.
    pub open spec fn spec_mask(self) -> u64 {
        match self {
            FieldBits::Bit(bit) => 1u64 << bit,
            FieldBits::Range { lo, hi } => (u64::MAX >> ((63 - hi) as u32)) & (u64::MAX << lo),
        }
    }

    /// The number of the lowest bit of the field.
    pub open spec fn spec_shift(self) -> u32 {
        match self {
            FieldBits::Bit(bit) => bit,
            FieldBits::Range { lo, .. } => lo,
        }
    }

    /// Whether `value` fits into the field.
    pub open spec fn spec_validate(self, value: u64) -> bool {
        value & !(self.spec_mask() >> self.spec_shift()) == 0
    }

    /// The bits of the field as a mask.
    pub fn mask(self) -> (r: u64)
        requires
            self.wf(),
        ensures
            r == self.spec_mask(),
    {
        match self {
            FieldBits::Bit(bit) => 1u64 << bit,
            FieldBits::Range { lo, hi } => (u64::MAX >> (63 - hi)) & (u64::MAX << lo),
        }
    }

    /// The number of the lowest bit of the field.
    pub fn shift(self) -> (r: u32)
        ensures
            r == self.spec_shift(),
    {
        match self {
            FieldBits::Bit(bit) => bit,
            FieldBits::Range { lo, .. } => lo,
        }
    }

    /// Whether `value` fits into the field.
    pub fn validate(&self, value: u64) -> (r: bool)
        requires
            self.wf(),
        ensures
            r == self.spec_validate(value),
    {
        let mask = self.mask() >> self.shift();
        value & !mask == 0
    }
}

/// A field of a PMU: where it lies and what value it has, if any yet.
#[derive(Clone, Copy, Debug, PartialEq, Eq, Structural)]
pub struct Field {
    pub dest: FieldDest,
    pub bits: FieldBits,
    pub value: Option<u64>,
}

impl Field {
    /// The event `event` with this field, whose value is `value`, written
    /// into its bits.
    pub open spec fn spec_apply(self, event: Dynamic, value: u64) -> Dynamic {
        let mask = self.bits.spec_mask();
        let shifted = (value << self.bits.spec_shift()) & mask;
        match self.dest {
            FieldDest::Config => Dynamic { config: (event.config & !mask) | shifted, ..event },
            FieldDest::Config1 => Dynamic { config1: (event.config1 & !mask) | shifted, ..event },
            FieldDest::Config2 => Dynamic { config2: (event.config2 & !mask) | shifted, ..event },
        }
    }

    /// Writes the field with value `value` into its bits of `event`.
    fn apply(&self, event: &mut Dynamic, value: u64)
        requires
            self.bits.wf(),
        ensures
            *final(event) == self.spec_apply(*old(event), value),
    {
        let mask = self.bits.mask();
        let shifted = (value << self.bits.shift()) & mask;
        match self.dest {
            FieldDest::Config => {
                event.config = (event.config & !mask) | shifted;
            },
            FieldDest::Config1 => {
                event.config1 = (event.config1 & !mask) | shifted;
            },
            FieldDest::Config2 => {
                event.config2 = (event.config2 & !mask) | shifted;
            },
        }
    }
}

/// A field together with its name.
#[derive(Clone, Debug)]
pub struct NamedField {
    pub name: String,
    pub field: Field,
}

/// A field that has to be given a value has none.
#[derive(Clone, Debug)]
pub struct MissingParameterError {
    param: String,
}

impl MissingParameterError {
    /// The name of the field without a value, as bytes.
    pub closed spec fn spec_param(&self) -> Seq<u8> {
        encode_utf8(self.param@)
    }

    fn new(param: String) -> (r: Self)
        ensures
            r.spec_param() == encode_utf8(param@),
    {
        MissingParameterError { param }
    }

    /// The name of the field without a value.
    pub fn param(&self) -> (r: &str)
        ensures
            r.spec_bytes() == self.spec_param(),
    {
        self.param.as_str()
    }
}

/// What is wrong with a description of a PMU or with the use of one.
#[derive(Clone, Debug)]
pub enum ErrorData {
    /// A format names an attribute other than `config`, `config1` and
    /// `config2`.
    UnknownTarget(Vec<u8>),
    /// The PMU has no field of that name.
    UnknownField(Vec<u8>),
    /// The value has bits beyond those of the field.
    ValueTooLarge,
    /// A number could not be read.
    InvalidInteger(IntError),
    /// The name of a field is not valid UTF-8.
    NonUtf8FieldName,
    /// A format lacks the colon between the attribute and the bits.
    MissingColon,
    /// A property of an event was asked for before an event was chosen.
    MissingEvent,
    /// A field that has to be given a value has none.
    MissingParam(Vec<u8>),
}

/// An error of a [`DynamicBuilder`]: what is wrong, and in which file,
/// where it is a file that is wrong.
#[derive(Clone, Debug)]
pub struct DynamicBuilderError {
    pub data: ErrorData,
    pub path: Option<String>,
}

impl DynamicBuilderError {
    /// The error that says `data` of no file.
    pub fn new(data: ErrorData) -> (r: Self)
        ensures
            r.data == data,
            r.path is None,
    {
        DynamicBuilderError { data, path: None }
    }

    /// The same error, said of the file `path`.
    pub fn with_path(self, path: String) -> (r: Self)
        ensures
            r.data == self.data,
            r.path == Some(path),
    {
        DynamicBuilderError { data: self.data, path: Some(path) }
    }

    /// A format lacks its colon.
    pub fn missing_colon() -> (r: Self)
        ensures
            r.data is MissingColon,
            r.path is None,
    {
        DynamicBuilderError::new(ErrorData::MissingColon)
    }

    /// A number could not be read, for the reason `error`.
    pub fn parse(error: IntError) -> (r: Self)
        ensures
            r.data == ErrorData::InvalidInteger(error),
            r.path is None,
    {
        DynamicBuilderError::new(ErrorData::InvalidInteger(error))
    }

    /// The name of a field is not valid UTF-8.
    pub fn invalid_field_name() -> (r: Self)
        ensures
            r.data is NonUtf8FieldName,
            r.path is None,
    {
        DynamicBuilderError::new(ErrorData::NonUtf8FieldName)
    }

    /// A format names the attribute `target`, which is none of those that
    /// hold fields.
    pub fn unknown_target(target: Vec<u8>) -> (r: Self)
        ensures
            r.data == ErrorData::UnknownTarget(target),
            r.path is None,
    {
        DynamicBuilderError::new(ErrorData::UnknownTarget(target))
    }

    /// The PMU has no field called `field`.
    pub fn unknown_field(field: Vec<u8>) -> (r: Self)
        ensures
            r.data == ErrorData::UnknownField(field),
            r.path is None,
    {
        DynamicBuilderError::new(ErrorData::UnknownField(field))
    }

    /// The value given to a field has bits beyond those of the field.
    pub fn value_too_large() -> (r: Self)
        ensures
            r.data is ValueTooLarge,
            r.path is None,
    {
        DynamicBuilderError::new(ErrorData::ValueTooLarge)
    }

    /// The error of a builder that says that the field named in `error` has
    /// no value.
    pub fn missing_param(error: MissingParameterError) -> (r: Self)
        ensures
            r.data matches ErrorData::MissingParam(name) && name@ == error.spec_param(),
            r.path is None,
    {
        DynamicBuilderError::new(
            ErrorData::MissingParam(slice_to_vec(error.param.as_str().as_bytes())),
        )
    }
}

/// Builds a [`Dynamic`] event from the fields of its PMU.
///
/// The fields keep the order in which they were added, and no two of them
/// have the same name.
#[derive(Clone, Debug)]
pub struct DynamicBuilder {
    ty: u32,
    fields: Vec<NamedField>,
    has_event: bool,
}

/// The fields of a builder as specifications see them: each with its name
/// as bytes.
pub type Fields = Seq<(Seq<u8>, Field)>;

/// The event made of the fields `fields`, written one after the other into
/// an event of kind `ty` that starts out as zero, or the index of the first
/// field without a value.
pub open spec fn spec_build(ty: u32, fields: Seq<Field>) -> Result<Dynamic, int>
    decreases fields.len(),
{
    if fields.len() == 0 {
        Ok(Dynamic { ty, config: 0, config1: 0, config2: 0 })
    } else {
        match spec_build(ty, fields.drop_last()) {
            Err(i) => Err(i),
            Ok(event) => match fields.last().value {
                None => Err(fields.len() - 1),
                Some(value) => Ok(fields.last().spec_apply(event, value)),
            },
        }
    }
}

/// The names of those of the fields `fields` that have no value, in the
/// order of the fields.
pub open spec fn spec_params(fields: Fields) -> Seq<Seq<u8>>
    decreases fields.len(),
{
    if fields.len() == 0 {
        Seq::empty()
    } else {
        let rest = spec_params(fields.drop_last());
        if fields.last().1.value is None {
            rest.push(fields.last().0)
        } else {
            rest
        }
    }
}

/// The strings `names` as bytes.
pub open spec fn names_of(names: Seq<String>) -> Seq<Seq<u8>> {
    Seq::new(names.len(), |k: int| encode_utf8(names[k]@))
}

/// The index of the field called `name`, if there is one.
pub open spec fn position(fields: Fields, name: Seq<u8>) -> Option<int> {
    if exists|i: int| 0 <= i < fields.len() && fields[i].0 == name {
        Some(choose|i: int| 0 <= i < fields.len() && fields[i].0 == name)
    } else {
        None
    }
}

/// The attribute that a format names.
pub open spec fn spec_parse_dest(name: Seq<u8>) -> Option<FieldDest> {
    if name == seq![0x63u8, 0x6f, 0x6e, 0x66, 0x69, 0x67] {
        Some(FieldDest::Config)
    } else if name == seq![0x63u8, 0x6f, 0x6e, 0x66, 0x69, 0x67, 0x31] {
        Some(FieldDest::Config1)
    } else if name == seq![0x63u8, 0x6f, 0x6e, 0x66, 0x69, 0x67, 0x32] {
        Some(FieldDest::Config2)
    } else {
        None
    }
}

/// The bits that a format gives after its colon: `lo-hi`, or one bit
/// number. White space at the end does not count.
pub open spec fn spec_parse_bits(rest: Seq<u8>) -> Result<FieldBits, IntError> {
    let i = index_of(rest, 0x2d);
    if i < rest.len() {
        match spec_parse_u32(rest.take(i)) {
            Err(e) => Err(e),
            Ok(lo) => match spec_parse_u32(spec_trim_end(rest.skip(i + 1))) {
                Err(e) => Err(e),
                Ok(hi) => Ok(FieldBits::Range { lo, hi }),
            },
        }
    } else {
        match spec_parse_u32(spec_trim_end(rest)) {
            Err(e) => Err(e),
            Ok(bit) => Ok(FieldBits::Bit(bit)),
        }
    }
}

/// What is wrong with a format.
pub enum FormatError {
    /// There is no colon.
    MissingColon,
    /// What stands before the colon is none of `config`, `config1` and
    /// `config2`.
    UnknownTarget(Seq<u8>),
    /// A bit number could not be read, or is not below 64.
    InvalidInteger(IntError),
}

/// What the contents `s` of a format file say: the attribute before the
/// colon and the bits after it.
pub open spec fn spec_parse_format(s: Seq<u8>) -> Result<(FieldDest, FieldBits), FormatError> {
    let i = index_of(s, 0x3a);
    if i >= s.len() {
        Err(FormatError::MissingColon)
    } else {
        match spec_parse_dest(s.take(i)) {
            None => Err(FormatError::UnknownTarget(s.take(i))),
            Some(dest) => match spec_parse_bits(s.skip(i + 1)) {
                Err(e) => Err(FormatError::InvalidInteger(e)),
                Ok(bits) => if bits.wf() {
                    Ok((dest, bits))
                } else {
                    Err(FormatError::InvalidInteger(IntError::Overflow))
                },
            },
        }
    }
}

/// What is wrong with an event file.
pub enum EventError {
    /// A value could not be read.
    InvalidInteger(IntError),
    /// A term names a field that the PMU does not have.
    UnknownField(Seq<u8>),
}

/// What one term of an event file says: the name of a field and its value.
/// `name=?` leaves the field without a value, `name=number` gives it the
/// hexadecimal number, and `name` alone gives it 1.
pub open spec fn spec_term(term: Seq<u8>) -> Result<(Seq<u8>, Option<u64>), IntError> {
    let t = spec_trim_end(term);
    let i = index_of(t, 0x3d);
    if i >= t.len() {
        Ok((t, Some(1)))
    } else if t.skip(i + 1) == seq![0x3fu8] {
        Ok((t.take(i), None))
    } else {
        match spec_parse_hex(t.skip(i + 1)) {
            Ok(v) => Ok((t.take(i), Some(v))),
            Err(e) => Err(e),
        }
    }
}

/// The fields after the terms of the event file `text`, which are
/// separated by commas, have been applied to `fields` one after the other,
/// and the first error, at which the applying stops.
pub open spec fn spec_event(fields: Fields, text: Seq<u8>) -> (Fields, Result<(), EventError>)
    decreases text.len(),
{
    let i = index_of(text, 0x2c);
    match spec_term(text.take(i)) {
        Err(e) => (fields, Err(EventError::InvalidInteger(e))),
        Ok((name, value)) => match position(fields, name) {
            None => (fields, Err(EventError::UnknownField(name))),
            Some(k) => {
                let next = fields.update(k, (name, Field { value, ..fields[k].1 }));
                if 0 <= i < text.len() {
                    spec_event(next, text.skip(i + 1))
                } else {
                    (next, Ok(()))
                }
            },
        },
    }
}

/// Reads the bits that a format gives after its colon.
fn parse_bits(rest: &[u8]) -> (r: Result<FieldBits, IntError>)
    ensures
        r == spec_parse_bits(rest@),
{
    let i = find_byte(rest, 0x2d);
    if i < rest.len() {
        let lo = parse_u32(slice_subrange(rest, 0, i))?;
        let hi = parse_u32(trim_end(slice_subrange(rest, i + 1, rest.len())))?;
        Ok(FieldBits::Range { lo, hi })
    } else {
        let bit = parse_u32(trim_end(rest))?;
        Ok(FieldBits::Bit(bit))
    }
}

/// Reads the attribute that a format names.
fn parse_dest(name: &[u8]) -> (r: Option<FieldDest>)
    ensures
        r == spec_parse_dest(name@),
{
    let config: [u8; 6] = [0x63, 0x6f, 0x6e, 0x66, 0x69, 0x67];
    let config1: [u8; 7] = [0x63, 0x6f, 0x6e, 0x66, 0x69, 0x67, 0x31];
    let config2: [u8; 7] = [0x63, 0x6f, 0x6e, 0x66, 0x69, 0x67, 0x32];
    proof {
        assert(config@ =~= seq![0x63u8, 0x6f, 0x6e, 0x66, 0x69, 0x67]);
        assert(config1@ =~= seq![0x63u8, 0x6f, 0x6e, 0x66, 0x69, 0x67, 0x31]);
        assert(config2@ =~= seq![0x63u8, 0x6f, 0x6e, 0x66, 0x69, 0x67, 0x32]);
    }
    if bytes_eq(name, config.as_slice()) {
        Some(FieldDest::Config)
    } else if bytes_eq(name, config1.as_slice()) {
        Some(FieldDest::Config1)
    } else if bytes_eq(name, config2.as_slice()) {
        Some(FieldDest::Config2)
    } else {
        None
    }
}

/// Reads one term of an event file.
fn parse_term(term: &[u8]) -> (r: Result<(&[u8], Option<u64>), IntError>)
    ensures
        match r {
            Ok((name, value)) => spec_term(term@) == Ok::<_, IntError>((name@, value)),
            Err(e) => spec_term(term@) == Err::<(Seq<u8>, Option<u64>), _>(e),
        },
{
    let t = trim_end(term);
    let i = find_byte(t, 0x3d);
    if i >= t.len() {
        assert(t@.take(t@.len() as int) =~= t@);
        return Ok((t, Some(1)));
    }
    let name = slice_subrange(t, 0, i);
    let value = slice_subrange(t, i + 1, t.len());
    if value.len() == 1 && value[0] == 0x3f {
        assert(value@ =~= seq![0x3fu8]);
        return Ok((name, None));
    }
    assert(value@ != seq![0x3fu8]) by {
        if value@.len() == 1 {
            assert(seq![0x3fu8][0] == 0x3f);
        }
    }
    match parse_hex_bytes(value) {
        Ok(v) => Ok((name, Some(v))),
        Err(e) => Err(e),
    }
}

impl DynamicBuilder {
    /// The kind of the PMU.
    pub closed spec fn ty(&self) -> u32 {
        self.ty
    }

    /// Whether an event file has been applied to the fields.
    pub closed spec fn has_event(&self) -> bool {
        self.has_event
    }

    /// The fields with their names, in the order in which they were added.
    pub closed spec fn fields_view(&self) -> Fields {
        Seq::new(
            self.fields@.len(),
            |i: int| (encode_utf8(self.fields@[i].name@), self.fields@[i].field),
        )
    }

    /// The fields without their names.
    pub open spec fn field_seq(&self) -> Seq<Field> {
        Seq::new(self.fields_view().len(), |i: int| self.fields_view()[i].1)
    }

    /// Whether no two fields have the same name and every field lies in
    /// bits below 64.
    pub open spec fn wf(&self) -> bool {
        &&& forall|i: int, j: int|
            0 <= i < j < self.fields_view().len() ==> self.fields_view()[i].0
                != self.fields_view()[j].0
        &&& forall|i: int|
            0 <= i < self.fields_view().len() ==> (#[trigger] self.fields_view()[i]).1.bits.wf()
    }

    /// A builder without fields for the PMU whose kind is `ty`.
    pub fn new(ty: u32) -> (r: Self)
        ensures
            r.ty() == ty,
            r.fields_view().len() == 0,
            !r.has_event(),
            r.wf(),
    {
        DynamicBuilder { ty, fields: Vec::new(), has_event: false }
    }

    /// The position of the field called `name`.
    fn find(&self, name: &[u8]) -> (r: Option<usize>)
        ensures
            match r {
                Some(i) => i < self.fields_view().len() && self.fields_view()[i as int].0 == name@,
                None => forall|i: int|
                    0 <= i < self.fields_view().len() ==> (#[trigger] self.fields_view()[i]).0
                        != name@,
            },
            self.wf() ==> position(self.fields_view(), name@) == match r {
                Some(i) => Some(i as int),
                None => None,
            },
    {
        let mut i: usize = 0;
        while i < self.fields.len()
            invariant
                i <= self.fields@.len(),
                forall|k: int| 0 <= k < i ==> (#[trigger] self.fields_view()[k]).0 != name@,
            decreases self.fields@.len() - i,
        {
            if bytes_eq(self.fields[i].name.as_str().as_bytes(), name) {
                proof {
                    let fields = self.fields_view();
                    assert(fields[i as int].0 == name@);
                    if self.wf() {
                        let c = choose|k: int| 0 <= k < fields.len() && fields[k].0 == name@;
                        if c < i {
                            assert(fields[c].0 != fields[i as int].0);
                        } else if c > i {
                            assert(fields[i as int].0 != fields[c].0);
                        }
                    }
                }
                return Some(i);
            }
            i += 1;
        }
        None
    }

    /// Puts `field` under the name `name`: in the place of the field of
    /// that name where there is one, else at the end.
    fn put(&mut self, name: String, field: Field)
        requires
            old(self).wf(),
            field.bits.wf(),
        ensures
            final(self).wf(),
            final(self).ty() == old(self).ty(),
            final(self).has_event() == old(self).has_event(),
            final(self).fields_view() == match position(
                old(self).fields_view(),
                encode_utf8(name@),
            ) {
                Some(i) => old(self).fields_view().update(i, (encode_utf8(name@), field)),
                None => old(self).fields_view().push((encode_utf8(name@), field)),
            },
    {
        let ghost bytes = encode_utf8(name@);
        match self.find(name.as_str().as_bytes()) {
            Some(i) => {
                self.fields[i] = NamedField { name, field };
                assert(self.fields_view() =~= old(self).fields_view().update(
                    i as int,
                    (bytes, field),
                ));
            },
            None => {
                self.fields.push(NamedField { name, field });
                assert(self.fields_view() =~= old(self).fields_view().push((bytes, field)));
            },
        }
    }

    /// Adds the field `name`, without a value, in the place `dest` and
    /// `bits`. A field of that name that is there already is replaced.
    pub fn add_field(&mut self, name: &str, dest: FieldDest, bits: FieldBits)
        requires
            old(self).wf(),
            bits.wf(),
        ensures
            final(self).wf(),
            final(self).ty() == old(self).ty(),
            final(self).has_event() == old(self).has_event(),
            final(self).fields_view() == match position(
                old(self).fields_view(),
                name.spec_bytes(),
            ) {
                Some(i) => old(self).fields_view().update(
                    i,
                    (name.spec_bytes(), Field { dest, bits, value: None }),
                ),
                None => old(self).fields_view().push(
                    (name.spec_bytes(), Field { dest, bits, value: None }),
                ),
            },
    {
        self.put(name.to_owned(), Field { dest, bits, value: None });
    }

    /// Adds the field `name` as its format file, whose contents are
    /// `contents`, describes it. On an error the builder stays as it was.
    pub fn add_format(&mut self, name: &str, contents: &str) -> (r: Result<
        (),
        DynamicBuilderError,
    >)
        requires
            old(self).wf(),
        ensures
            final(self).wf(),
            final(self).ty() == old(self).ty(),
            final(self).has_event() == old(self).has_event(),
            match spec_parse_format(contents.spec_bytes()) {
                Ok((dest, bits)) => r is Ok && final(self).fields_view() == match position(
                    old(self).fields_view(),
                    name.spec_bytes(),
                ) {
                    Some(i) => old(self).fields_view().update(
                        i,
                        (name.spec_bytes(), Field { dest, bits, value: None }),
                    ),
                    None => old(self).fields_view().push(
                        (name.spec_bytes(), Field { dest, bits, value: None }),
                    ),
                },
                Err(error) => final(self).fields_view() == old(self).fields_view() && (match error {
                    FormatError::MissingColon => r matches Err(e) && e.data is MissingColon,
                    FormatError::UnknownTarget(target) => r matches Err(e) && e.data
                        matches ErrorData::UnknownTarget(t) && t@ == target,
                    FormatError::InvalidInteger(kind) => r matches Err(e) && e.data
                        matches ErrorData::InvalidInteger(k) && k == kind,
                }),
            },
    {
        let text = contents.as_bytes();
        let colon = find_byte(text, 0x3a);
        if colon >= text.len() {
            return Err(DynamicBuilderError::missing_colon());
        }
        let target = slice_subrange(text, 0, colon);
        let dest = match parse_dest(target) {
            Some(dest) => dest,
            None => {
                return Err(
                    DynamicBuilderError::unknown_target(slice_to_vec(target)),
                );
            },
        };
        let bits = match parse_bits(slice_subrange(text, colon + 1, text.len())) {
            Ok(bits) => bits,
            Err(e) => {
                return Err(DynamicBuilderError::parse(e));
            },
        };
        let fits = match bits {
            FieldBits::Bit(bit) => bit < 64,
            FieldBits::Range { lo, hi } => lo < 64 && hi < 64,
        };
        if !fits {
            return Err(DynamicBuilderError::parse(IntError::Overflow));
        }
        self.add_field(name, dest, bits);
        Ok(())
    }

    /// Gives the fields the values that the event file with the contents
    /// `text` lists. The terms are applied one after the other; the first
    /// error stops that and leaves what was applied before it. Only a file
    /// that was applied whole makes the builder one with an event.
    pub fn event(&mut self, text: &str) -> (r: Result<(), DynamicBuilderError>)
        requires
            old(self).wf(),
        ensures
            final(self).wf(),
            final(self).ty() == old(self).ty(),
            final(self).has_event() == (old(self).has_event() || r is Ok),
            final(self).fields_view() == spec_event(old(self).fields_view(), text.spec_bytes()).0,
            match spec_event(old(self).fields_view(), text.spec_bytes()).1 {
                Ok(_) => r is Ok,
                Err(EventError::InvalidInteger(kind)) => r matches Err(e) && e.data
                    matches ErrorData::InvalidInteger(k) && k == kind,
                Err(EventError::UnknownField(name)) => r matches Err(e) && e.data
                    matches ErrorData::UnknownField(n) && n@ == name,
            },
    {
        let all = text.as_bytes();
        let mut rest = all;
        loop
            invariant
                self.wf(),
                self.ty() == old(self).ty(),
                self.has_event() == old(self).has_event(),
                spec_event(self.fields_view(), rest@) == spec_event(
                    old(self).fields_view(),
                    text.spec_bytes(),
                ),
            decreases rest@.len(),
        {
            let comma = find_byte(rest, 0x2c);
            let ghost before = self.fields_view();
            let (name, value) = match parse_term(slice_subrange(rest, 0, comma)) {
                Ok(term) => term,
                Err(e) => {
                    return Err(DynamicBuilderError::parse(e));
                },
            };
            let k = match self.find(name) {
                Some(k) => k,
                None => {
                    return Err(
                        DynamicBuilderError::unknown_field(slice_to_vec(name)),
                    );
                },
            };
            let field = self.fields[k].field;
            let updated = Field { dest: field.dest, bits: field.bits, value };
            let owned = self.fields[k].name.clone();
            self.fields[k] = NamedField { name: owned, field: updated };
            proof {
                assert(before[k as int].1.bits.wf());
                assert(self.fields_view() =~= before.update(k as int, (name@, updated)));
            }
            if comma >= rest.len() {
                self.has_event = true;
                return Ok(());
            }
            rest = slice_subrange(rest, comma + 1, rest.len());
        }
    }

    /// Gives the field `name` the value `value`.
    ///
    /// Fails where the PMU has no such field and where the value has bits
    /// beyond those of the field; the builder then stays as it was.
    pub fn field(&mut self, name: &str, value: u64) -> (r: Result<(), DynamicBuilderError>)
        requires
            old(self).wf(),
        ensures
            final(self).wf(),
            final(self).ty() == old(self).ty(),
            final(self).has_event() == old(self).has_event(),
            match position(old(self).fields_view(), name.spec_bytes()) {
                None => r matches Err(e) && e.data matches ErrorData::UnknownField(n) && n@
                    == name.spec_bytes() && final(self).fields_view() == old(self).fields_view(),
                Some(i) => {
                    let field = old(self).fields_view()[i].1;
                    if field.bits.spec_validate(value) {
                        r is Ok && final(self).fields_view() == old(self).fields_view().update(
                            i,
                            (name.spec_bytes(), Field { value: Some(value), ..field }),
                        )
                    } else {
                        r matches Err(e) && e.data is ValueTooLarge && final(self).fields_view()
                            == old(self).fields_view()
                    }
                },
            },
    {
        let bytes = name.as_bytes();
        match self.find(bytes) {
            None => Err(DynamicBuilderError::unknown_field(slice_to_vec(bytes))),
            Some(i) => {
                assert(old(self).fields_view()[i as int].1.bits.wf());
                let field = self.fields[i].field;
                if !field.bits.validate(value) {
                    return Err(DynamicBuilderError::value_too_large());
                }
                let updated = Field { dest: field.dest, bits: field.bits, value: Some(value) };
                let owned = self.fields[i].name.clone();
                self.fields[i] = NamedField { name: owned, field: updated };
                assert(self.fields_view() =~= old(self).fields_view().update(
                    i as int,
                    (name.spec_bytes(), updated),
                ));
                Ok(())
            },
        }
    }

    /// The unit that the event counts in, as its unit file gives it.
    ///
    /// `contents` is what the unit file of the event holds, or `None` where
    /// the event has no such file. The unit is the contents without the
    /// white space at their end. A builder to which no event file was
    /// applied has no event to ask the unit of.
    pub fn unit(&self, contents: Option<&str>) -> (r: Result<
        Option<Vec<u8>>,
        DynamicBuilderError,
    >)
        ensures
            if !self.has_event() {
                r matches Err(e) && e.data is MissingEvent && e.path is None
            } else {
                match contents {
                    None => r matches Ok(None),
                    Some(text) => r matches Ok(Some(unit)) && unit@ == spec_trim_end(
                        text.spec_bytes(),
                    ),
                }
            },
    {
        if !self.has_event {
            return Err(DynamicBuilderError::new(ErrorData::MissingEvent));
        }
        match contents {
            None => Ok(None),
            Some(text) => Ok(Some(slice_to_vec(trim_end(text.as_bytes())))),
        }
    }

    /// The event that the fields make, or the first field without a value.
    pub fn build(&self) -> (r: Result<Dynamic, MissingParameterError>)
        requires
            self.wf(),
        ensures
            match r {
                Ok(event) => spec_build(self.ty(), self.field_seq()) == Ok::<Dynamic, int>(event),
                Err(e) => spec_build(self.ty(), self.field_seq()) matches Err(i) && 0 <= i
                    < self.fields_view().len() && e.spec_param() == self.fields_view()[i].0,
            },
    {
        let mut event = Dynamic { ty: self.ty, config: 0, config1: 0, config2: 0 };
        let mut i: usize = 0;
        let ghost all = self.field_seq();
        assert(all.take(0) =~= Seq::<Field>::empty());
        while i < self.fields.len()
            invariant
                self.wf(),
                all == self.field_seq(),
                i <= self.fields@.len(),
                self.fields@.len() == all.len(),
                spec_build(self.ty(), all.take(i as int)) == Ok::<Dynamic, int>(event),
            decreases self.fields@.len() - i,
        {
            let field = self.fields[i].field;
            proof {
                assert(self.fields_view()[i as int].1 == field);
                assert(all.take(i + 1).drop_last() =~= all.take(i as int));
                assert(all.take(i + 1).last() == field);
            }
            match field.value {
                Some(value) => {
                    field.apply(&mut event, value);
                },
                None => {
                    proof {
                        lemma_build_error_stays(self.ty(), all, i + 1);
                    }
                    return Err(MissingParameterError::new(self.fields[i].name.clone()));
                },
            }
            i += 1;
        }
        assert(all.take(i as int) =~= all);
        Ok(event)
    }

    /// The names of the fields without a value, in the order of the fields.
    pub fn params(&self) -> (r: Vec<String>)
        ensures
            names_of(r@) == spec_params(self.fields_view()),
    {
        let mut out: Vec<String> = Vec::new();
        let mut i: usize = 0;
        let ghost all = self.fields_view();
        assert(all.take(0) =~= Seq::<(Seq<u8>, Field)>::empty());
        assert(names_of(out@) =~= Seq::<Seq<u8>>::empty());
        while i < self.fields.len()
            invariant
                all == self.fields_view(),
                i <= self.fields@.len(),
                self.fields@.len() == all.len(),
                names_of(out@) == spec_params(all.take(i as int)),
            decreases self.fields@.len() - i,
        {
            proof {
                assert(all.take(i + 1).drop_last() =~= all.take(i as int));
                assert(all.take(i + 1).last() == all[i as int]);
            }
            if self.fields[i].field.value.is_none() {
                let ghost before = out@;
                out.push(self.fields[i].name.clone());
                assert(names_of(out@) =~= names_of(before).push(all[i as int].0));
            }
            i += 1;
        }
        assert(all.take(i as int) =~= all);
        out
    }

    /// All fields with their values, in the order of the fields.
    pub fn fields(&self) -> (r: Vec<(String, Option<u64>)>)
        ensures
            r@.len() == self.fields_view().len(),
            forall|i: int|
                0 <= i < r@.len() ==> encode_utf8((#[trigger] r@[i]).0@) == self.fields_view()[i].0
                    && r@[i].1 == self.fields_view()[i].1.value,
    {
        let mut out: Vec<(String, Option<u64>)> = Vec::new();
        let mut i: usize = 0;
        while i < self.fields.len()
            invariant
                i <= self.fields@.len(),
                out@.len() == i,
                forall|k: int|
                    0 <= k < i ==> encode_utf8((#[trigger] out@[k]).0@) == self.fields_view()[k].0
                        && out@[k].1 == self.fields_view()[k].1.value,
            decreases self.fields@.len() - i,
        {
            out.push((self.fields[i].name.clone(), self.fields[i].field.value));
            i += 1;
        }
        out
    }
}

/// Once a prefix of the fields fails to build, every longer prefix fails in
/// the same place.
proof fn lemma_build_error_stays(ty: u32, fields: Seq<Field>, n: int)
    requires
        0 <= n <= fields.len(),
        spec_build(ty, fields.take(n)) is Err,
    ensures
        spec_build(ty, fields) == spec_build(ty, fields.take(n)),
    decreases fields.len() - n,
{
    if n < fields.len() {
        assert(fields.take(n + 1).drop_last() =~= fields.take(n));
        lemma_build_error_stays(ty, fields, n + 1);
    } else {
        assert(fields.take(n) =~= fields);
    }
}

} // verus!
