use jerry_client::serialization::wire_format::{
    put_field, read_fields, FieldError, WireField, WireValue, HIGHEST_FIELD_NUMBER, LONGEST_FIELD,
};

fn field(number: u32, value: WireValue) -> WireField {
    WireField { number, value }
}

fn written(fields: &[WireField]) -> Vec<u8> {
    let mut out = Vec::new();
    for field in fields {
        assert_eq!(put_field(&mut out, field), Ok(()));
    }
    out
}

/// The number that the bytes begin with, and how many bytes spell it.
fn varint(bytes: &[u8]) -> Option<(u64, usize)> {
    let mut value: u128 = 0;
    for (i, byte) in bytes.iter().take(10).enumerate() {
        value += ((byte & 0x7f) as u128) << (7 * i);
        if *byte < 0x80 {
            return Some(((value % (1u128 << 64)) as u64, i + 1));
        }
    }
    None
}

/// The field that the bytes begin with, by the rules of the wire.
fn first_field(bytes: &[u8]) -> Option<(WireField, usize)> {
    let (tag, tag_len) = varint(bytes)?;
    let tag = tag % (1u64 << 32);
    let number = (tag / 8) as u32;
    if number == 0 {
        return None;
    }
    let rest = &bytes[tag_len..];
    let (value, len) = match tag % 8 {
        0 => {
            let (value, len) = varint(rest)?;
            (WireValue::Varint(value), len)
        }
        1 => {
            let eight: [u8; 8] = rest.get(..8)?.try_into().ok()?;
            (WireValue::Fixed64(u64::from_le_bytes(eight)), 8)
        }
        2 => {
            let (count, len) = varint(rest)?;
            let count = (count % (1u64 << 32)) as usize;
            let run = rest.get(len..len.checked_add(count)?)?;
            (WireValue::LengthDelimited(run.to_vec()), len + count)
        }
        5 => {
            let four: [u8; 4] = rest.get(..4)?.try_into().ok()?;
            (WireValue::Fixed32(u32::from_le_bytes(four)), 4)
        }
        _ => return None,
    };
    Some((field(number, value), tag_len + len))
}

fn all_fields(mut bytes: &[u8]) -> Option<Vec<WireField>> {
    let mut fields = Vec::new();
    while !bytes.is_empty() {
        let (field, len) = first_field(bytes)?;
        fields.push(field);
        bytes = &bytes[len..];
    }
    Some(fields)
}

#[test]
fn fields_are_written_as_the_wire_has_them() {
    assert_eq!(written(&[field(1, WireValue::Varint(150))]), vec![0x08, 0x96, 0x01]);
    assert_eq!(
        written(&[field(2, WireValue::from_text("testing"))]),
        vec![0x12, 0x07, b't', b'e', b's', b't', b'i', b'n', b'g']
    );
    assert_eq!(written(&[field(5, WireValue::Fixed32(1))]), vec![0x2D, 1, 0, 0, 0]);
    assert_eq!(
        written(&[field(1, WireValue::Fixed64(0x0102030405060708))]),
        vec![0x09, 8, 7, 6, 5, 4, 3, 2, 1]
    );
    assert_eq!(
        written(&[field(16, WireValue::LengthDelimited(Vec::new()))]),
        vec![0x82, 0x01, 0x00]
    );
    assert_eq!(
        written(&[field(HIGHEST_FIELD_NUMBER, WireValue::Varint(0))]),
        vec![0xF8, 0xFF, 0xFF, 0xFF, 0x0F, 0x00]
    );
}

#[test]
fn negative_numbers_take_ten_bytes() {
    assert_eq!(
        written(&[field(1, WireValue::from_int32(-1))]),
        vec![0x08, 0xFF, 0xFF, 0xFF, 0xFF, 0xFF, 0xFF, 0xFF, 0xFF, 0xFF, 0x01]
    );
    assert_eq!(WireValue::from_int32(-1), WireValue::Varint(u64::MAX));
    assert_eq!(WireValue::from_int32(i32::MIN), WireValue::Varint(0xFFFF_FFFF_8000_0000));
    assert_eq!(WireValue::from_int32(i32::MAX), WireValue::Varint(0x7FFF_FFFF));
    assert_eq!(WireValue::from_int32(0), WireValue::Varint(0));
    assert_eq!(WireValue::from_uint32(u32::MAX), WireValue::Varint(0xFFFF_FFFF));
    assert_eq!(WireValue::from_bool(true), WireValue::Varint(1));
    assert_eq!(WireValue::from_bool(false), WireValue::Varint(0));
}

#[test]
fn values_are_read_as_they_were_written() {
    for number in [0i32, 1, -1, 42, -42, i32::MAX, i32::MIN, 0x8000, -0x8000] {
        assert_eq!(WireValue::from_int32(number).int32(), Some(number));
    }
    for number in [0u32, 1, 0x7FFF_FFFF, 0x8000_0000, u32::MAX] {
        assert_eq!(WireValue::from_uint32(number).uint32(), Some(number));
    }
    for truth in [true, false] {
        assert_eq!(WireValue::from_bool(truth).boolean(), Some(truth));
    }
    for text in ["", "text", "Grüße, 世界 🌍", "\0"] {
        assert_eq!(WireValue::from_text(text).text(), Some(String::from(text)));
        assert_eq!(WireValue::from_text(text).bytes(), Some(&text.as_bytes().to_vec()));
    }
}

#[test]
fn values_are_read_by_their_low_bits() {
    assert_eq!(WireValue::Varint(0x1_0000_0005).int32(), Some(5));
    assert_eq!(WireValue::Varint(0xFFFF_FFFF).int32(), Some(-1));
    assert_eq!(WireValue::Varint(0x8000_0000).int32(), Some(i32::MIN));
    assert_eq!(WireValue::Varint(0x7_8000_0001).int32(), Some(i32::MIN + 1));
    assert_eq!(WireValue::Varint(0x1_0000_0005).uint32(), Some(5));
    assert_eq!(WireValue::Varint(u64::MAX).uint32(), Some(u32::MAX));
    assert_eq!(WireValue::Varint(2).boolean(), Some(true));
    assert_eq!(WireValue::Varint(1 << 40).boolean(), Some(true));
}

#[test]
fn values_of_another_kind_are_not_read() {
    let others = || {
        vec![WireValue::Fixed64(1), WireValue::Fixed32(1), WireValue::LengthDelimited(vec![1])]
    };
    for value in others() {
        assert_eq!(value.int32(), None);
        assert_eq!(value.uint32(), None);
        assert_eq!(value.boolean(), None);
    }
    for value in [WireValue::Varint(1), WireValue::Fixed64(1), WireValue::Fixed32(1)] {
        assert_eq!(value.bytes(), None);
        assert_eq!(value.text(), None);
    }
}

#[test]
fn bytes_that_spell_no_text_are_no_text() {
    for run in [vec![0xFFu8], vec![0xC0, 0x80], vec![0xE2, 0x82], vec![0xED, 0xA0, 0x80]] {
        assert_eq!(WireValue::LengthDelimited(run).text(), None);
    }
    assert_eq!(
        WireValue::LengthDelimited(vec![0xE2, 0x82, 0xAC]).text(),
        Some(String::from("€"))
    );
}

#[test]
fn fields_that_cannot_be_written_are_refused() {
    let mut out = vec![7u8];
    assert_eq!(
        put_field(&mut out, &field(0, WireValue::Varint(1))),
        Err(FieldError::NumberOutOfRange)
    );
    assert_eq!(
        put_field(&mut out, &field(HIGHEST_FIELD_NUMBER + 1, WireValue::Varint(1))),
        Err(FieldError::NumberOutOfRange)
    );
    assert_eq!(
        put_field(&mut out, &field(u32::MAX, WireValue::LengthDelimited(Vec::new()))),
        Err(FieldError::NumberOutOfRange)
    );
    assert_eq!(out, vec![7u8]);
    assert_eq!(put_field(&mut out, &field(1, WireValue::Varint(1))), Ok(()));
    assert_eq!(out, vec![7u8, 0x08, 0x01]);
    assert_eq!(LONGEST_FIELD, u32::MAX as usize);
    assert_eq!(FieldError::TooLong, FieldError::TooLong);
}

#[test]
fn body_is_taken_apart_into_the_fields_it_was_made_of() {
    let fields = vec![
        field(1, WireValue::from_int32(-5)),
        field(2, WireValue::from_text("desk")),
        field(3, WireValue::LengthDelimited(written(&[field(1, WireValue::from_int32(7))]))),
        field(1, WireValue::from_bool(true)),
        field(400, WireValue::Fixed32(0xDEAD_BEEF)),
        field(HIGHEST_FIELD_NUMBER, WireValue::Fixed64(u64::MAX)),
        field(7, WireValue::LengthDelimited(vec![0u8; 300])),
    ];
    let body = written(&fields);
    assert_eq!(read_fields(&body), Some(fields));
    assert_eq!(read_fields(&[]), Some(Vec::new()));
}

#[test]
fn body_that_is_cut_short_is_no_body() {
    let body = written(&[
        field(1, WireValue::from_int32(-5)),
        field(2, WireValue::from_text("desk")),
        field(5, WireValue::Fixed32(9)),
        field(6, WireValue::Fixed64(9)),
    ]);
    let whole = [0usize, 11, 17, 22, 31];
    for cut in 0..=body.len() {
        assert_eq!(read_fields(&body[..cut]).is_some(), whole.contains(&cut), "cut at {}", cut);
    }
}

#[test]
fn malformed_fields_are_no_fields() {
    // the number of a field is not zero
    assert_eq!(read_fields(&[0x00, 0x01]), None);
    assert_eq!(read_fields(&[0x05, 1, 0, 0, 0]), None);
    // groups, and kinds that do not exist
    for kind in [3u8, 4, 6, 7] {
        assert_eq!(read_fields(&[0x08 | kind, 0x00]), None);
    }
    // a tag or a value that does not end
    assert_eq!(read_fields(&[0x80; 10]), None);
    assert_eq!(read_fields(&[0x08, 0x80, 0x80, 0x80, 0x80, 0x80, 0x80, 0x80, 0x80, 0x80, 0x80]), None);
    // a run that is longer than what is there
    assert_eq!(read_fields(&[0x0A, 0x02, 0x01]), None);
    assert_eq!(read_fields(&[0x0A, 0xFF, 0xFF, 0xFF, 0xFF, 0x0F, 0x01]), None);
}

#[test]
fn tags_and_lengths_keep_their_low_32_bits() {
    // the tag spells 2^32 + 8: field one, a varint
    assert_eq!(
        read_fields(&[0x88, 0x80, 0x80, 0x80, 0x10, 0x05]),
        Some(vec![field(1, WireValue::Varint(5))])
    );
    // the length spells 2^32 + 1
    assert_eq!(
        read_fields(&[0x0A, 0x81, 0x80, 0x80, 0x80, 0x10, 0x07]),
        Some(vec![field(1, WireValue::LengthDelimited(vec![7]))])
    );
    // a value keeps 64 bits
    assert_eq!(
        read_fields(&[0x08, 0xFF, 0xFF, 0xFF, 0xFF, 0xFF, 0xFF, 0xFF, 0xFF, 0xFF, 0x7F]),
        Some(vec![field(1, WireValue::Varint(u64::MAX))])
    );
}

#[test]
fn reading_follows_the_rules_of_the_wire_on_arbitrary_bytes() {
    // a small generator of bytes that lean towards what fields look like
    let mut state: u64 = 0x9E37_79B9_7F4A_7C15;
    let mut next = move || {
        state ^= state << 13;
        state ^= state >> 7;
        state ^= state << 17;
        state
    };
    let mut seen_some = 0;
    let mut seen_none = 0;
    for _ in 0..20_000 {
        let len = (next() % 24) as usize;
        let mut bytes = Vec::with_capacity(len);
        for _ in 0..len {
            let roll = next();
            let byte = match roll % 8 {
                0 => 0x08,
                1 => 0x12,
                2 => (roll >> 8) as u8 & 0x07,
                3 => 0x80 | ((roll >> 8) as u8 & 0x7F),
                4 => 0x0D,
                5 => 0x09,
                _ => (roll >> 8) as u8,
            };
            bytes.push(byte);
        }
        let expected = all_fields(&bytes);
        match &expected {
            Some(_) => seen_some += 1,
            None => seen_none += 1,
        }
        assert_eq!(read_fields(&bytes), expected, "bytes {:?}", bytes);
        if let Some(fields) = expected {
            // what was read can be written, and is read again as it was
            assert_eq!(read_fields(&written(&fields)), Some(fields));
        }
    }
    assert!(seen_some > 1000);
    assert!(seen_none > 1000);
}
