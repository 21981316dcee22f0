use nvim_redraw::render::{debug_text, display_text};
use nvim_redraw::{ParseError, WireValue};

fn text(s: &str) -> WireValue {
    WireValue::String(s.to_string())
}

#[test]
fn nil_is_shown() {
    assert_eq!(display_text(&WireValue::Nil), "nil");
    assert_eq!(debug_text(&vec![WireValue::Nil]), "[Nil]");
}

#[test]
fn boolean_is_shown() {
    assert_eq!(display_text(&WireValue::Boolean(true)), "true");
    assert_eq!(debug_text(&vec![WireValue::Boolean(false)]), "[Boolean(false)]");
}

#[test]
fn unsigned_integer_is_shown() {
    assert_eq!(display_text(&WireValue::Unsigned(18446744073709551615)), "18446744073709551615");
    assert_eq!(debug_text(&vec![WireValue::Unsigned(5)]), "[Integer(PosInt(5))]");
}

#[test]
fn signed_integer_is_shown() {
    assert_eq!(display_text(&WireValue::Signed(-5)), "-5");
    assert_eq!(debug_text(&vec![WireValue::Signed(-5)]), "[Integer(NegInt(-5))]");
    assert_eq!(debug_text(&vec![WireValue::Signed(5)]), "[Integer(PosInt(5))]");
}

#[test]
fn single_precision_float_is_shown() {
    assert_eq!(display_text(&WireValue::Float32(1.5f32.to_bits())), "1.5");
    assert_eq!(debug_text(&vec![WireValue::Float32(1.5f32.to_bits())]), "[F32(1.5)]");
}

#[test]
fn double_precision_float_is_shown() {
    assert_eq!(display_text(&WireValue::Float64(2.25f64.to_bits())), "2.25");
    assert_eq!(debug_text(&vec![WireValue::Float64((-0.5f64).to_bits())]), "[F64(-0.5)]");
    assert_eq!(debug_text(&vec![WireValue::Float64(f64::NAN.to_bits())]), "[F64(NaN)]");
}

#[test]
fn string_is_shown_quoted() {
    assert_eq!(display_text(&text("a\"b")), "\"a\\\"b\"");
    assert_eq!(debug_text(&vec![text("ab")]), "[String(Utf8String { s: Ok(\"ab\") })]");
}

#[test]
fn raw_string_with_utf8_bytes_is_shown_as_text() {
    let value = WireValue::RawString(b"ab".to_vec());
    assert_eq!(display_text(&value), "\"ab\"");
    assert_eq!(debug_text(&vec![value]), "[String(Utf8String { s: Ok(\"ab\") })]");
}

#[test]
fn raw_string_that_is_not_utf8_is_shown_by_its_bytes() {
    let value = WireValue::RawString(vec![0x61, 0xff]);
    assert_eq!(display_text(&value), "[97, 255]");
    assert_eq!(
        debug_text(&vec![value]),
        "[String(Utf8String { s: Err(([97, 255], Utf8Error { valid_up_to: 1, error_len: Some(1) })) })]"
    );
}

#[test]
fn empty_raw_string_is_shown_as_empty_text() {
    assert_eq!(display_text(&WireValue::RawString(vec![])), "\"\"");
}

#[test]
fn binary_data_is_shown_by_its_bytes() {
    assert_eq!(display_text(&WireValue::Binary(vec![1, 2])), "[1, 2]");
    assert_eq!(debug_text(&vec![WireValue::Binary(vec![1, 2])]), "[Binary([1, 2])]");
}

#[test]
fn array_is_shown_with_its_items() {
    let value = WireValue::Array(vec![WireValue::Unsigned(1), text("a"), WireValue::Array(vec![])]);
    assert_eq!(display_text(&value), "[1, \"a\", []]");
    assert_eq!(
        debug_text(&vec![value]),
        "[Array([Integer(PosInt(1)), String(Utf8String { s: Ok(\"a\") }), Array([])])]"
    );
}

#[test]
fn map_is_shown_with_its_pairs_in_wire_order() {
    let value = WireValue::Mapping(vec![
        (text("b"), WireValue::Unsigned(2)),
        (text("a"), WireValue::Boolean(true)),
    ]);
    assert_eq!(display_text(&value), "{\"b\": 2, \"a\": true}");
    assert_eq!(
        debug_text(&vec![value]),
        "[Map([(String(Utf8String { s: Ok(\"b\") }), Integer(PosInt(2))), \
         (String(Utf8String { s: Ok(\"a\") }), Boolean(true))])]"
    );
}

#[test]
fn extension_value_is_shown_with_its_tag() {
    let value = WireValue::Ext(-3, vec![9, 8]);
    assert_eq!(display_text(&value), "[-3, [9, 8]]");
    assert_eq!(debug_text(&vec![value]), "[Ext(-3, [9, 8])]");
}

#[test]
fn empty_tuple_is_dumped_as_brackets() {
    assert_eq!(debug_text(&vec![]), "[]");
}

#[test]
fn message_of_each_kind_of_error() {
    let value = WireValue::Unsigned(7);
    assert_eq!(ParseError::Array(value.clone()).message(), "invalid array format 7");
    assert_eq!(ParseError::Mapping(value.clone()).message(), "invalid map format 7");
    assert_eq!(ParseError::String(value.clone()).message(), "invalid string format 7");
    assert_eq!(ParseError::U64(text("x")).message(), "invalid u64 format \"x\"");
    assert_eq!(ParseError::I64(text("x")).message(), "invalid i64 format \"x\"");
    assert_eq!(ParseError::F64(WireValue::Nil).message(), "invalid f64 format nil");
    assert_eq!(ParseError::Bool(value.clone()).message(), "invalid bool format 7");
    assert_eq!(
        ParseError::WindowAnchor(text("XX")).message(),
        "invalid window anchor format \"XX\""
    );
    assert_eq!(
        ParseError::Format("[Nil]".to_string()).message(),
        "invalid event format [Nil]"
    );
}

#[test]
fn a_copy_of_an_error_is_equal_to_it() {
    let error = ParseError::Mapping(WireValue::Array(vec![WireValue::Nil]));
    assert_eq!(error.clone(), error);
    let error = ParseError::Format("x".to_string());
    assert_eq!(error.clone(), error);
}

#[test]
fn scalars_are_rebuilt_as_rmpv_values() {
    assert_eq!(WireValue::Nil.to_rmpv(), rmpv::Value::Nil);
    assert_eq!(WireValue::Boolean(true).to_rmpv(), rmpv::Value::Boolean(true));
    assert_eq!(WireValue::Unsigned(5).to_rmpv(), rmpv::Value::from(5u64));
    assert_eq!(WireValue::Unsigned(u64::MAX).to_rmpv(), rmpv::Value::from(u64::MAX));
    assert_eq!(WireValue::Signed(-5).to_rmpv(), rmpv::Value::from(-5i64));
    assert_eq!(WireValue::Signed(5).to_rmpv(), rmpv::Value::from(5u64));
    assert_eq!(WireValue::Signed(i64::MIN).to_rmpv(), rmpv::Value::from(i64::MIN));
}

#[test]
fn floats_are_rebuilt_bit_for_bit() {
    for value in [0.0f32, -0.0, 1.5, f32::MAX, f32::MIN_POSITIVE, f32::INFINITY] {
        assert_eq!(WireValue::Float32(value.to_bits()).to_rmpv(), rmpv::Value::F32(value));
    }
    for value in [0.0f64, -0.0, 2.5, f64::MAX, f64::MIN_POSITIVE, f64::NEG_INFINITY] {
        assert_eq!(WireValue::Float64(value.to_bits()).to_rmpv(), rmpv::Value::F64(value));
    }
    for bits in [0x7ff8_0000_0000_0001u64, 0xfff0_0000_0000_0001, 0x0123_4567_89ab_cdef] {
        match WireValue::Float64(bits).to_rmpv() {
            rmpv::Value::F64(value) => assert_eq!(value.to_bits(), bits),
            other => panic!("unexpected value {other:?}"),
        }
    }
    for bits in [0x7fc0_0001u32, 0xff80_0001, 0x0123_4567] {
        match WireValue::Float32(bits).to_rmpv() {
            rmpv::Value::F32(value) => assert_eq!(value.to_bits(), bits),
            other => panic!("unexpected value {other:?}"),
        }
    }
}

#[test]
fn strings_are_rebuilt_as_rmpv_strings() {
    assert_eq!(text("héllo").to_rmpv(), rmpv::Value::from("héllo"));
    assert_eq!(WireValue::RawString("héllo".as_bytes().to_vec()).to_rmpv(), rmpv::Value::from("héllo"));
    assert_eq!(WireValue::RawString(vec![]).to_rmpv(), rmpv::Value::from(""));
    match WireValue::RawString(vec![0x61, 0xff, 0x62]).to_rmpv() {
        rmpv::Value::String(string) => {
            assert!(string.is_err());
            assert_eq!(string.as_bytes(), &[0x61, 0xff, 0x62]);
        }
        other => panic!("unexpected value {other:?}"),
    }
    let long = vec![0x80u8; 70_000];
    match WireValue::RawString(long.clone()).to_rmpv() {
        rmpv::Value::String(string) => assert_eq!(string.into_bytes(), long),
        other => panic!("unexpected value {other:?}"),
    }
}

#[test]
fn containers_are_rebuilt_with_their_contents_in_order() {
    let value = WireValue::Array(vec![
        WireValue::Binary(vec![1, 2]),
        WireValue::Ext(-1, vec![3]),
        WireValue::Mapping(vec![
            (text("b"), WireValue::Unsigned(2)),
            (text("a"), WireValue::Array(vec![])),
        ]),
    ]);
    assert_eq!(
        value.to_rmpv(),
        rmpv::Value::Array(vec![
            rmpv::Value::Binary(vec![1, 2]),
            rmpv::Value::Ext(-1, vec![3]),
            rmpv::Value::Map(vec![
                (rmpv::Value::from("b"), rmpv::Value::from(2u64)),
                (rmpv::Value::from("a"), rmpv::Value::Array(vec![])),
            ]),
        ])
    );
}
