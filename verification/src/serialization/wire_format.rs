//! The fields that a message body is made of: a number, and a value of one
//! of four kinds.

use vstd::prelude::*;
use vstd::bytes::{
    lemma_auto_spec_u32_to_from_le_bytes, lemma_auto_spec_u64_to_from_le_bytes,
    spec_u32_from_le_bytes, spec_u32_to_le_bytes, spec_u64_from_le_bytes, spec_u64_to_le_bytes,
};
use vstd::slice::{slice_subrange, slice_to_vec};
use vstd::string::StringSliceAdditionalSpecFns;
use vstd::utf8::{decode_utf8, encode_utf8, encode_utf8_decode_utf8, encode_utf8_valid_utf8, valid_utf8};
use super::framing::{
    lemma_varint_round_trip, varint_encoding, varint_prefix, varint_range, Varint, VARINT_LIMIT,
};
use protobuf::{CodedInputStream, CodedOutputStream, UnknownValue, UnknownValueRef};

verus! {

/// The highest number a field can have.
pub const HIGHEST_FIELD_NUMBER: u32 = 0x1FFF_FFFF;

/// The longest run of bytes a field can hold.
pub const LONGEST_FIELD: usize = 0xFFFF_FFFF;

/// What a field holds.
#[derive(Debug, PartialEq, Eq)]
pub enum WireValue {
    Varint(u64),
    Fixed64(u64),
    LengthDelimited(Vec<u8>),
    Fixed32(u32),
}

/// One field of a message body.
#[derive(Debug, PartialEq, Eq)]
pub struct WireField {
    pub number: u32,
    pub value: WireValue,
}

/// What a field holds, as a plain value.
pub enum WireValueView {
    Varint(u64),
    Fixed64(u64),
    LengthDelimited(Seq<u8>),
    Fixed32(u32),
}

/// A field as a plain value.
pub struct WireFieldView {
    pub number: u32,
    pub value: WireValueView,
}

impl View for WireValue {
    type V = WireValueView;

    open spec fn view(&self) -> WireValueView {
        match self {
            WireValue::Varint(value) => WireValueView::Varint(*value),
            WireValue::Fixed64(value) => WireValueView::Fixed64(*value),
            WireValue::LengthDelimited(bytes) => WireValueView::LengthDelimited(bytes@),
            WireValue::Fixed32(value) => WireValueView::Fixed32(*value),
        }
    }
}

impl View for WireField {
    type V = WireFieldView;

    open spec fn view(&self) -> WireFieldView {
        WireFieldView { number: self.number, value: self.value@ }
    }
}

impl DeepView for WireField {
    type V = WireFieldView;

    open spec fn deep_view(&self) -> WireFieldView {
        self.view()
    }
}

/// A field with what it takes on the wire.
pub struct FieldFound {
    pub field: WireFieldView,
    /// The number of bytes that spell the field.
    pub len: nat,
}

impl WireValueView {
    /// The kind of the value, as the tag of a field names it.
    pub open spec fn wire_type(self) -> nat {
        match self {
            WireValueView::Varint(_) => 0,
            WireValueView::Fixed64(_) => 1,
            WireValueView::LengthDelimited(_) => 2,
            WireValueView::Fixed32(_) => 5,
        }
    }

    /// The value on the wire: a varint, eight or four bytes with the low
    /// byte first, or a run of bytes behind its length.
    pub open spec fn encoding(self) -> Seq<u8> {
        match self {
            WireValueView::Varint(value) => varint_encoding(value as nat),
            WireValueView::Fixed64(value) => spec_u64_to_le_bytes(value),
            WireValueView::LengthDelimited(bytes) => varint_encoding(bytes.len()) + bytes,
            WireValueView::Fixed32(value) => spec_u32_to_le_bytes(value),
        }
    }
}

impl WireFieldView {
    /// A field that can be written: its number is in range, and a run of
    /// bytes is not too long to be counted.
    pub open spec fn wf(self) -> bool {
        &&& 1 <= self.number <= HIGHEST_FIELD_NUMBER
        &&& self.value matches WireValueView::LengthDelimited(bytes) ==> bytes.len()
            <= LONGEST_FIELD
    }

    /// The tag of the field: its number, and the kind of its value in the
    /// three lowest bits.
    pub open spec fn tag(self) -> nat {
        (self.number * 8 + self.value.wire_type()) as nat
    }

    /// The field on the wire: the tag as a varint, then the value.
    pub open spec fn encoding(self) -> Seq<u8> {
        varint_encoding(self.tag()) + self.value.encoding()
    }
}

/// What is read as 32 bits of a varint.
pub open spec fn low_32(value: nat) -> nat {
    value % 0x1_0000_0000
}

/// The value of a kind that the bytes begin with, and how many bytes spell
/// it.
pub open spec fn value_at_start(wire_type: nat, bytes: Seq<u8>) -> Option<(WireValueView, nat)> {
    if wire_type == 0 {
        match varint_prefix(bytes, VARINT_LIMIT as nat) {
            Some(found) => Some(
                (WireValueView::Varint((found.value % varint_range()) as u64), found.len),
            ),
            None => None,
        }
    } else if wire_type == 1 {
        if bytes.len() >= 8 {
            Some((WireValueView::Fixed64(spec_u64_from_le_bytes(bytes.subrange(0, 8))), 8))
        } else {
            None
        }
    } else if wire_type == 5 {
        if bytes.len() >= 4 {
            Some((WireValueView::Fixed32(spec_u32_from_le_bytes(bytes.subrange(0, 4))), 4))
        } else {
            None
        }
    } else if wire_type == 2 {
        match varint_prefix(bytes, VARINT_LIMIT as nat) {
            Some(found) => if bytes.len() - found.len >= low_32(found.value) {
                Some(
                    (
                        WireValueView::LengthDelimited(
                            bytes.subrange(
                                found.len as int,
                                (found.len + low_32(found.value)) as int,
                            ),
                        ),
                        found.len + low_32(found.value),
                    ),
                )
            } else {
                None
            },
            None => None,
        }
    } else {
        None
    }
}

/// The field that the bytes begin with: a tag whose number is not zero and
/// whose kind is one of the four, and a value of that kind.
pub open spec fn field_at_start(bytes: Seq<u8>) -> Option<FieldFound> {
    match varint_prefix(bytes, VARINT_LIMIT as nat) {
        None => None,
        Some(tag) => {
            let number = low_32(tag.value) / 8;
            let wire_type = low_32(tag.value) % 8;
            if number == 0 {
                None
            } else {
                match value_at_start(wire_type, bytes.subrange(tag.len as int, bytes.len() as int)) {
                    Some((value, len)) => Some(
                        FieldFound {
                            field: WireFieldView { number: number as u32, value },
                            len: tag.len + len,
                        },
                    ),
                    None => None,
                }
            }
        },
    }
}

/// The fields that a message body is made of, one after the other; nothing
/// where the bytes are not fields from the first to the last.
pub open spec fn fields_of(bytes: Seq<u8>) -> Option<Seq<WireFieldView>>
    decreases bytes.len(),
{
    if bytes.len() == 0 {
        Some(Seq::empty())
    } else {
        match field_at_start(bytes) {
            None => None,
            Some(found) => if 0 < found.len <= bytes.len() {
                match fields_of(bytes.subrange(found.len as int, bytes.len() as int)) {
                    Some(more) => Some(seq![found.field] + more),
                    None => None,
                }
            } else {
                None
            },
        }
    }
}

/// The fields on the wire, one after the other.
pub open spec fn encoding_of_all(fields: Seq<WireFieldView>) -> Seq<u8>
    decreases fields.len(),
{
    if fields.len() == 0 {
        Seq::empty()
    } else {
        fields[0].encoding() + encoding_of_all(fields.subrange(1, fields.len() as int))
    }
}

/// `CodedInputStream::from_bytes`, `read_tag_unpack`, `read_unknown` and
/// `pos` of the crate `protobuf`: reads one field off the start of the
/// bytes and says how many bytes it took. The tag is the low 32 bits of a
/// varint; its three lowest bits name the kind of the value, the rest is the
/// number of the field, which is not zero. A varint value keeps its low 64
/// bits; fixed values are eight or four bytes with the low byte first; a run
/// of bytes comes behind its length, of which the low 32 bits count. Any
/// other kind, and bytes that end too early, give nothing.
#[verifier::external_body]
fn read_field(bytes: &[u8]) -> (read: Option<(WireField, usize)>)
    ensures
        match read {
            Some((field, len)) => field_at_start(bytes@) == Some(
                FieldFound { field: field@, len: len as nat },
            ),
            None => field_at_start(bytes@) is None,
        },
{
    let mut is = CodedInputStream::from_bytes(bytes);
    let (number, wire_type) = is.read_tag_unpack().ok()?;
    let value = match is.read_unknown(wire_type).ok()? {
        UnknownValue::Varint(value) => WireValue::Varint(value),
        UnknownValue::Fixed64(value) => WireValue::Fixed64(value),
        UnknownValue::LengthDelimited(run) => WireValue::LengthDelimited(run),
        UnknownValue::Fixed32(value) => WireValue::Fixed32(value),
    };
    Some((WireField { number, value }, is.pos() as usize))
}

/// `CodedOutputStream::vec`, `write_unknown` and `flush` of the crate
/// `protobuf`: appends one field, the tag first, then the value.
#[verifier::external_body]
fn write_field(out: &mut Vec<u8>, field: &WireField)
    requires
        field@.wf(),
    ensures
        final(out)@ == old(out)@ + field@.encoding(),
{
    let value = match &field.value {
        WireValue::Varint(value) => UnknownValueRef::Varint(*value),
        WireValue::Fixed64(value) => UnknownValueRef::Fixed64(*value),
        WireValue::LengthDelimited(run) => UnknownValueRef::LengthDelimited(run),
        WireValue::Fixed32(value) => UnknownValueRef::Fixed32(*value),
    };
    let mut os = CodedOutputStream::vec(out);
    let _ = os.write_unknown(field.number, value);
    let _ = os.flush();
}

/// Why a field was not written.
#[derive(Clone, Copy, Debug, PartialEq, Eq, Structural)]
pub enum FieldError {
    /// The number of the field is zero or too high.
    NumberOutOfRange,
    /// The run of bytes is too long to be counted.
    TooLong,
}

/// Takes a message body apart into its fields.
pub fn read_fields(bytes: &[u8]) -> (fields: Option<Vec<WireField>>)
    ensures
        fields.deep_view() == fields_of(bytes@),
{
    let mut fields: Vec<WireField> = Vec::new();
    let mut at: usize = 0;
    assert(bytes@.subrange(0, bytes@.len() as int) =~= bytes@);
    assert(fields.deep_view() =~= Seq::<WireFieldView>::empty());
    while at < bytes.len()
        invariant
            at <= bytes.len(),
            fields_of(bytes@) == (match fields_of(bytes@.subrange(at as int, bytes@.len() as int)) {
                Some(more) => Some(fields.deep_view() + more),
                None => None::<Seq<WireFieldView>>,
            }),
        decreases bytes.len() - at,
    {
        let rest = slice_subrange(bytes, at, bytes.len());
        match read_field(rest) {
            None => {
                return None;
            },
            Some((field, len)) => {
                proof {
                    lemma_field_is_within(rest@);
                }
                let ghost before = fields.deep_view();
                let ghost found = field@;
                assert(rest@.subrange(len as int, rest@.len() as int) =~= bytes@.subrange(
                    at + len,
                    bytes@.len() as int,
                ));
                fields.push(field);
                assert(fields.deep_view() =~= before.push(found));
                assert forall|more: Seq<WireFieldView>|
                    before + (seq![found] + more) =~= before.push(found) + more by {}
                at = at + len;
            },
        }
    }
    assert(bytes@.subrange(at as int, bytes@.len() as int) =~= Seq::<u8>::empty());
    assert(fields.deep_view() + Seq::<WireFieldView>::empty() =~= fields.deep_view());
    Some(fields)
}

/// Appends one field to a message body, unless it cannot be written.
pub fn put_field(out: &mut Vec<u8>, field: &WireField) -> (put: Result<(), FieldError>)
    ensures
        match put {
            Ok(_) => field@.wf() && final(out)@ == old(out)@ + field@.encoding(),
            Err(error) => !field@.wf() && final(out)@ == old(out)@ && error == (
            if 1 <= field.number <= HIGHEST_FIELD_NUMBER {
                FieldError::TooLong
            } else {
                FieldError::NumberOutOfRange
            }),
        },
{
    if field.number < 1 || field.number > HIGHEST_FIELD_NUMBER {
        return Err(FieldError::NumberOutOfRange);
    }
    match &field.value {
        WireValue::LengthDelimited(bytes) => {
            if bytes.len() > LONGEST_FIELD {
                return Err(FieldError::TooLong);
            }
        },
        _ => {},
    }
    write_field(out, field);
    Ok(())
}

proof fn lemma_field_is_within(bytes: Seq<u8>)
    ensures
        field_at_start(bytes) matches Some(found) ==> 0 < found.len <= bytes.len(),
{
    super::framing::lemma_prefix_is_within(bytes, VARINT_LIMIT as nat);
    match varint_prefix(bytes, VARINT_LIMIT as nat) {
        Some(tag) => {
            let rest = bytes.subrange(tag.len as int, bytes.len() as int);
            super::framing::lemma_prefix_is_within(rest, VARINT_LIMIT as nat);
        },
        None => {},
    }
}


/// The 64 bits that stand for a number of 32 bits with a sign: the number
/// itself where it is not negative, and otherwise the number raised by two
/// to the power of 64.
pub open spec fn int32_bits(value: i32) -> u64 {
    if value >= 0 {
        value as u64
    } else {
        (0x1_0000_0000_0000_0000 + value) as u64
    }
}

/// The number of 32 bits with a sign that a varint is read as: its low 32
/// bits, of which the highest is the sign.
pub open spec fn as_int32(bits: u64) -> i32 {
    if low_32(bits as nat) < 0x8000_0000 {
        low_32(bits as nat) as i32
    } else {
        (low_32(bits as nat) - 0x1_0000_0000) as i32
    }
}

/// The text that a value spells: the value is a run of bytes, and the bytes
/// spell a text in UTF-8.
pub open spec fn text_in(value: WireValueView) -> Option<Seq<char>> {
    match value {
        WireValueView::LengthDelimited(run) => if valid_utf8(run) {
            Some(decode_utf8(run))
        } else {
            None
        },
        _ => None,
    }
}

/// `String::from_utf8` of std: the text that the bytes spell in UTF-8, or
/// nothing where they spell none.
#[verifier::external_body]
fn text_of(bytes: Vec<u8>) -> (text: Option<String>)
    ensures
        match text {
            Some(text) => valid_utf8(bytes@) && text@ == decode_utf8(bytes@),
            None => !valid_utf8(bytes@),
        },
{
    String::from_utf8(bytes).ok()
}

impl WireValue {
    /// A number of 32 bits with a sign, as a value.
    pub fn from_int32(value: i32) -> (bits: WireValue)
        ensures
            bits@ == WireValueView::Varint(int32_bits(value)),
    {
        if value >= 0 {
            WireValue::Varint(value as u64)
        } else {
            WireValue::Varint(u64::MAX - ((-(value as i64) - 1) as u64))
        }
    }

    /// A number of 32 bits without a sign, as a value.
    pub fn from_uint32(value: u32) -> (bits: WireValue)
        ensures
            bits@ == WireValueView::Varint(value as u64),
    {
        WireValue::Varint(value as u64)
    }

    /// A truth value, as a value: one for true, zero for false.
    pub fn from_bool(value: bool) -> (bits: WireValue)
        ensures
            bits@ == WireValueView::Varint(if value { 1u64 } else { 0u64 }),
    {
        if value {
            WireValue::Varint(1)
        } else {
            WireValue::Varint(0)
        }
    }

    /// A text, as a value: its bytes in UTF-8.
    pub fn from_text(text: &str) -> (run: WireValue)
        ensures
            run@ == WireValueView::LengthDelimited(encode_utf8(text@)),
    {
        WireValue::LengthDelimited(slice_to_vec(text.as_bytes()))
    }

    /// The value as a number of 32 bits with a sign, where it is a varint.
    pub fn int32(&self) -> (number: Option<i32>)
        ensures
            number == (match self@ {
                WireValueView::Varint(bits) => Some(as_int32(bits)),
                _ => None,
            }),
    {
        match self {
            WireValue::Varint(bits) => {
                let low: u64 = *bits % 0x1_0000_0000;
                if low < 0x8000_0000 {
                    Some(low as i32)
                } else {
                    Some((low as i64 - 0x1_0000_0000) as i32)
                }
            },
            _ => None,
        }
    }

    /// The value as a number of 32 bits without a sign, where it is a
    /// varint: its low 32 bits.
    pub fn uint32(&self) -> (number: Option<u32>)
        ensures
            number == (match self@ {
                WireValueView::Varint(bits) => Some(low_32(bits as nat) as u32),
                _ => None,
            }),
    {
        match self {
            WireValue::Varint(bits) => Some((*bits % 0x1_0000_0000) as u32),
            _ => None,
        }
    }

    /// The value as a truth value, where it is a varint: true unless it is
    /// zero.
    pub fn boolean(&self) -> (truth: Option<bool>)
        ensures
            truth == (match self@ {
                WireValueView::Varint(bits) => Some(bits != 0),
                _ => None,
            }),
    {
        match self {
            WireValue::Varint(bits) => Some(*bits != 0),
            _ => None,
        }
    }

    /// The run of bytes that the value is, where it is one.
    pub fn bytes(&self) -> (run: Option<&Vec<u8>>)
        ensures
            match run {
                Some(run) => self@ == WireValueView::LengthDelimited(run@),
                None => !(self@ is LengthDelimited),
            },
    {
        match self {
            WireValue::LengthDelimited(run) => Some(run),
            _ => None,
        }
    }

    /// The text that the value spells, where it is a run of bytes that
    /// spells one in UTF-8; the value stays as it is.
    pub fn to_text(&self) -> (text: Option<String>)
        ensures
            text.deep_view() == text_in(self@),
    {
        match self {
            WireValue::LengthDelimited(run) => text_of(slice_to_vec(run.as_slice())),
            _ => None,
        }
    }

    /// The text that the value spells, where it is a run of bytes that
    /// spells one in UTF-8.
    pub fn text(self) -> (text: Option<String>)
        ensures
            match text {
                Some(text) => self@ matches WireValueView::LengthDelimited(run) && valid_utf8(run)
                    && text@ == decode_utf8(run),
                None => self@ matches WireValueView::LengthDelimited(run) ==> !valid_utf8(run),
            },
    {
        match self {
            WireValue::LengthDelimited(run) => text_of(run),
            _ => None,
        }
    }
}

/// Numbers and truth values are read as they were written.
pub proof fn lemma_numbers_round_trip(value: i32, number: u32, truth: bool)
    ensures
        as_int32(int32_bits(value)) == value,
        low_32(number as nat) == number,
        (if truth {
            1u64
        } else {
            0u64
        }) != 0 <==> truth,
{
}

/// A text is read as it was written.
pub proof fn lemma_text_round_trip(text: Seq<char>)
    ensures
        valid_utf8(encode_utf8(text)),
        decode_utf8(encode_utf8(text)) == text,
{
    encode_utf8_valid_utf8(text);
    encode_utf8_decode_utf8(text);
}

proof fn lemma_value_round_trip(value: WireValueView, rest: Seq<u8>)
    requires
        value matches WireValueView::LengthDelimited(bytes) ==> bytes.len() <= LONGEST_FIELD,
    ensures
        value_at_start(value.wire_type(), value.encoding() + rest) == Some(
            (value, value.encoding().len()),
        ),
{
    let bytes = value.encoding() + rest;
    match value {
        WireValueView::Varint(bits) => {
            lemma_varint_round_trip(bits as nat, rest);
        },
        WireValueView::Fixed64(bits) => {
            lemma_auto_spec_u64_to_from_le_bytes();
            assert(bytes.subrange(0, 8) =~= spec_u64_to_le_bytes(bits));
        },
        WireValueView::Fixed32(bits) => {
            lemma_auto_spec_u32_to_from_le_bytes();
            assert(bytes.subrange(0, 4) =~= spec_u32_to_le_bytes(bits));
        },
        WireValueView::LengthDelimited(run) => {
            let prefix = varint_encoding(run.len());
            lemma_varint_round_trip(run.len(), run + rest);
            assert(bytes =~= prefix + (run + rest));
            assert(bytes.subrange(prefix.len() as int, (prefix.len() + run.len()) as int) =~= run);
        },
    }
}

/// A field that was written is read back as it was, whatever follows it.
pub proof fn lemma_field_round_trip(field: WireFieldView, rest: Seq<u8>)
    requires
        field.wf(),
    ensures
        field_at_start(field.encoding() + rest) == Some(
            FieldFound { field, len: field.encoding().len() },
        ),
        field.encoding().len() > 0,
{
    let tag = varint_encoding(field.tag());
    let value = field.value.encoding();
    let bytes = field.encoding() + rest;
    lemma_varint_round_trip(field.tag(), value + rest);
    assert(bytes =~= tag + (value + rest));
    assert(bytes.subrange(tag.len() as int, bytes.len() as int) =~= value + rest);
    lemma_value_round_trip(field.value, rest);
}

/// A message body that was put together of fields is taken apart into the
/// same fields.
pub proof fn lemma_fields_round_trip(fields: Seq<WireFieldView>)
    requires
        forall|i: int| 0 <= i < fields.len() ==> (#[trigger] fields[i]).wf(),
    ensures
        fields_of(encoding_of_all(fields)) == Some(fields),
    decreases fields.len(),
{
    if fields.len() > 0 {
        let first = fields[0];
        let others = fields.subrange(1, fields.len() as int);
        let rest = encoding_of_all(others);
        let bytes = encoding_of_all(fields);
        assert(first.wf());
        assert forall|i: int| 0 <= i < others.len() implies (#[trigger] others[i]).wf() by {
            assert(others[i] == fields[i + 1]);
        }
        lemma_field_round_trip(first, rest);
        lemma_fields_round_trip(others);
        assert(bytes.subrange(first.encoding().len() as int, bytes.len() as int) =~= rest);
        assert(seq![first] + others =~= fields);
    }
}

} // verus!
