use nvim_redraw::extract::{
    extract_values, extract_values_with_optional, parse_array, parse_bool, parse_f64, parse_i64,
    parse_map, parse_optional_f64, parse_optional_u64, parse_string, parse_u64, read_text,
    read_u64,
};
use nvim_redraw::{Number, ParseError, WireValue};

fn text(s: &str) -> WireValue {
    WireValue::String(s.to_string())
}

#[test]
fn array_is_read_as_its_items() {
    let value = WireValue::Array(vec![WireValue::Nil, WireValue::Unsigned(3)]);
    assert_eq!(parse_array(&value), Ok(&vec![WireValue::Nil, WireValue::Unsigned(3)]));
}

#[test]
fn array_is_asked_of_a_map() {
    let value = WireValue::Mapping(vec![]);
    assert_eq!(parse_array(&value), Err(ParseError::Array(WireValue::Mapping(vec![]))));
}

#[test]
fn map_is_read_as_its_pairs_in_wire_order() {
    let pairs = vec![(text("b"), WireValue::Unsigned(2)), (text("a"), WireValue::Unsigned(1))];
    let value = WireValue::Mapping(pairs.clone());
    assert_eq!(parse_map(&value), Ok(&pairs));
}

#[test]
fn map_is_asked_of_an_array() {
    let value = WireValue::Array(vec![]);
    assert_eq!(parse_map(&value), Err(ParseError::Mapping(WireValue::Array(vec![]))));
}

#[test]
fn string_is_read_as_its_text() {
    assert_eq!(parse_string(&text("héllo")), Ok("héllo".to_string()));
}

#[test]
fn raw_string_with_utf8_bytes_is_read_as_its_text() {
    let value = WireValue::RawString("héllo".as_bytes().to_vec());
    assert_eq!(parse_string(&value), Ok("héllo".to_string()));
}

#[test]
fn raw_string_that_is_not_utf8_reads_as_the_replacement_character() {
    let value = WireValue::RawString(vec![b'a', 0xff, b'b']);
    assert_eq!(parse_string(&value), Ok("\u{FFFD}".to_string()));
}

#[test]
fn string_is_asked_of_binary_data() {
    let value = WireValue::Binary(vec![b'a']);
    assert_eq!(parse_string(&value), Err(ParseError::String(WireValue::Binary(vec![b'a']))));
}

#[test]
fn u64_accepts_both_integer_encodings() {
    assert_eq!(parse_u64(&WireValue::Unsigned(u64::MAX)), Ok(u64::MAX));
    assert_eq!(parse_u64(&WireValue::Signed(7)), Ok(7));
    assert_eq!(parse_u64(&WireValue::Signed(0)), Ok(0));
    assert_eq!(parse_u64(&WireValue::Signed(i64::MAX)), Ok(i64::MAX as u64));
}

#[test]
fn u64_refuses_a_negative_integer() {
    assert_eq!(parse_u64(&WireValue::Signed(-1)), Err(ParseError::U64(WireValue::Signed(-1))));
}

#[test]
fn u64_refuses_a_float() {
    let value = WireValue::Float64(1.0f64.to_bits());
    assert_eq!(parse_u64(&value), Err(ParseError::U64(WireValue::Float64(1.0f64.to_bits()))));
}

#[test]
fn i64_accepts_both_integer_encodings() {
    assert_eq!(parse_i64(&WireValue::Signed(i64::MIN)), Ok(i64::MIN));
    assert_eq!(parse_i64(&WireValue::Unsigned(7)), Ok(7));
    assert_eq!(parse_i64(&WireValue::Unsigned(i64::MAX as u64)), Ok(i64::MAX));
}

#[test]
fn i64_refuses_an_integer_that_is_too_large() {
    let value = WireValue::Unsigned(i64::MAX as u64 + 1);
    assert_eq!(
        parse_i64(&value),
        Err(ParseError::I64(WireValue::Unsigned(i64::MAX as u64 + 1)))
    );
}

#[test]
fn i64_refuses_a_string() {
    assert_eq!(parse_i64(&text("1")), Err(ParseError::I64(text("1"))));
}

#[test]
fn number_keeps_the_form_in_which_it_came() {
    assert_eq!(parse_f64(&WireValue::Unsigned(3)), Ok(Number::Unsigned(3)));
    assert_eq!(parse_f64(&WireValue::Signed(3)), Ok(Number::Unsigned(3)));
    assert_eq!(parse_f64(&WireValue::Signed(-3)), Ok(Number::Signed(-3)));
    assert_eq!(parse_f64(&WireValue::Float32(1.5f32.to_bits())), Ok(Number::Single(0x3fc0_0000)));
    assert_eq!(
        parse_f64(&WireValue::Float64(1.5f64.to_bits())),
        Ok(Number::Double(0x3ff8_0000_0000_0000))
    );
}

#[test]
fn number_is_asked_of_a_boolean() {
    assert_eq!(
        parse_f64(&WireValue::Boolean(true)),
        Err(ParseError::F64(WireValue::Boolean(true)))
    );
}

#[test]
fn bool_is_read() {
    assert_eq!(parse_bool(&WireValue::Boolean(true)), Ok(true));
    assert_eq!(parse_bool(&WireValue::Boolean(false)), Ok(false));
}

#[test]
fn bool_is_asked_of_an_integer() {
    assert_eq!(parse_bool(&WireValue::Unsigned(1)), Err(ParseError::Bool(WireValue::Unsigned(1))));
}

#[test]
fn optional_u64_keeps_absence() {
    assert_eq!(parse_optional_u64(None), Ok(None));
    assert_eq!(parse_optional_u64(Some(&WireValue::Unsigned(4))), Ok(Some(4)));
    assert_eq!(parse_optional_u64(Some(&WireValue::Nil)), Err(ParseError::U64(WireValue::Nil)));
}

#[test]
fn optional_number_keeps_absence() {
    assert_eq!(parse_optional_f64(None), Ok(None));
    assert_eq!(parse_optional_f64(Some(&WireValue::Unsigned(4))), Ok(Some(Number::Unsigned(4))));
    assert_eq!(parse_optional_f64(Some(&WireValue::Nil)), Err(ParseError::F64(WireValue::Nil)));
}

#[test]
fn text_is_read_without_an_error() {
    assert_eq!(read_text(&text("abc")), Some("abc".to_string()));
    assert_eq!(read_text(&WireValue::RawString(b"abc".to_vec())), Some("abc".to_string()));
    assert_eq!(read_text(&WireValue::RawString(vec![0xff])), None);
    assert_eq!(read_text(&WireValue::Unsigned(1)), None);
}

#[test]
fn integer_is_read_without_an_error() {
    assert_eq!(read_u64(&WireValue::Unsigned(9)), Some(9));
    assert_eq!(read_u64(&WireValue::Signed(9)), Some(9));
    assert_eq!(read_u64(&WireValue::Signed(-9)), None);
    assert_eq!(read_u64(&text("9")), None);
}

#[test]
fn required_values_are_the_first_ones() {
    let values = vec![WireValue::Unsigned(1), WireValue::Unsigned(2), WireValue::Unsigned(3)];
    assert_eq!(extract_values(&values, 2), Ok(vec![&values[0], &values[1]]));
    assert_eq!(extract_values(&values, 3), Ok(vec![&values[0], &values[1], &values[2]]));
    assert_eq!(extract_values(&values, 0), Ok(vec![]));
}

#[test]
fn a_short_tuple_is_a_structural_error_with_a_dump() {
    let values = vec![WireValue::Unsigned(1), text("x")];
    assert_eq!(
        extract_values(&values, 3),
        Err(ParseError::Format(
            "[Integer(PosInt(1)), String(Utf8String { s: Ok(\"x\") })]".to_string()
        ))
    );
}

#[test]
fn optional_slots_are_filled_as_far_as_the_tuple_reaches() {
    let values = vec![
        WireValue::Unsigned(1),
        WireValue::Unsigned(2),
        WireValue::Unsigned(3),
        WireValue::Unsigned(4),
    ];
    assert_eq!(
        extract_values_with_optional(&values, 2, 3),
        Ok((vec![&values[0], &values[1]], vec![Some(&values[2]), Some(&values[3]), None]))
    );
    assert_eq!(
        extract_values_with_optional(&values, 4, 2),
        Ok((vec![&values[0], &values[1], &values[2], &values[3]], vec![None, None]))
    );
}

#[test]
fn values_past_the_last_slot_are_left_aside() {
    let values = vec![
        WireValue::Unsigned(1),
        WireValue::Unsigned(2),
        WireValue::Unsigned(3),
        WireValue::Unsigned(4),
    ];
    assert_eq!(
        extract_values_with_optional(&values, 1, 1),
        Ok((vec![&values[0]], vec![Some(&values[1])]))
    );
}

#[test]
fn a_short_tuple_fails_with_optional_slots_too() {
    let values = vec![WireValue::Nil];
    assert_eq!(
        extract_values_with_optional(&values, 2, 2),
        Err(ParseError::Format("[Nil]".to_string()))
    );
}

#[test]
fn a_copy_of_a_value_is_equal_to_it() {
    let value = WireValue::Array(vec![
        WireValue::Mapping(vec![(text("k"), WireValue::Ext(3, vec![1, 2]))]),
        WireValue::RawString(vec![0xff]),
        WireValue::Binary(vec![0]),
        WireValue::Float32(7),
        WireValue::Float64(8),
        WireValue::Signed(-1),
        WireValue::Boolean(true),
        WireValue::Nil,
    ]);
    assert_eq!(value.clone(), value);
}
