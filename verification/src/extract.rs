//! Shape-checked conversions from a wire value to a primitive, and the
//! unpacker of positional parameters.

use vstd::prelude::*;
use vstd::string::StringExecFns;
use crate::error::{yields, yields_view, ParseError, ParseErrorView};
use crate::render::{debug_text, debug_text_of};
use crate::text::string_from_utf8;
use crate::wire::{pair_views_of, ref_views_of, views_of, Number, WireValue, WireView};

verus! {

/// The items of an array.
pub open spec fn as_array(value: WireView) -> Result<Seq<WireView>, ParseErrorView> {
    match value {
        WireView::Array(items) => Ok(items),
        _ => Err(ParseErrorView::Array(value)),
    }
}

/// The key/value pairs of a map, in wire order.
pub open spec fn as_mapping(value: WireView) -> Result<Seq<(WireView, WireView)>, ParseErrorView> {
    match value {
        WireView::Mapping(pairs) => Ok(pairs),
        _ => Err(ParseErrorView::Mapping(value)),
    }
}

/// The text that stands for a wire string that is not UTF-8.
pub open spec fn replacement_text() -> Seq<char> {
    "\u{FFFD}"@
}

/// The text of a string. A string that is not UTF-8 reads as the single
/// character U+FFFD.
pub open spec fn as_string(value: WireView) -> Result<Seq<char>, ParseErrorView> {
    match value {
        WireView::String(text) => Ok(text),
        WireView::RawString(_) => Ok(replacement_text()),
        _ => Err(ParseErrorView::String(value)),
    }
}

/// An integer of either encoding that fits `u64`.
pub open spec fn as_u64(value: WireView) -> Result<u64, ParseErrorView> {
    match value {
        WireView::Integer(n) if 0 <= n <= u64::MAX => Ok(n as u64),
        _ => Err(ParseErrorView::U64(value)),
    }
}

/// An integer of either encoding that fits `i64`.
pub open spec fn as_i64(value: WireView) -> Result<i64, ParseErrorView> {
    match value {
        WireView::Integer(n) if i64::MIN <= n <= i64::MAX => Ok(n as i64),
        _ => Err(ParseErrorView::I64(value)),
    }
}

/// The number that an integer stands for.
pub open spec fn integer_number(n: int) -> Number {
    if n < 0 {
        Number::Signed(n as i64)
    } else {
        Number::Unsigned(n as u64)
    }
}

/// A number: an integer or a float of either precision.
pub open spec fn as_number(value: WireView) -> Result<Number, ParseErrorView> {
    match value {
        WireView::Integer(n) => Ok(integer_number(n)),
        WireView::Float32(bits) => Ok(Number::Single(bits)),
        WireView::Float64(bits) => Ok(Number::Double(bits)),
        _ => Err(ParseErrorView::F64(value)),
    }
}

/// A boolean.
pub open spec fn as_bool(value: WireView) -> Result<bool, ParseErrorView> {
    match value {
        WireView::Boolean(b) => Ok(b),
        _ => Err(ParseErrorView::Bool(value)),
    }
}

/// The text of a value that is text.
pub open spec fn text_of(value: WireView) -> Option<Seq<char>> {
    match value {
        WireView::String(text) => Some(text),
        _ => None,
    }
}

/// The structural error that reports the values `values`.
pub open spec fn shape_error(values: Seq<WireView>) -> ParseErrorView {
    ParseErrorView::Format(debug_text_of(values))
}

/// The value at position `index` of a tuple, if the tuple is that long.
pub open spec fn slot_at(values: Seq<WireView>, index: int) -> Option<WireView> {
    if 0 <= index < values.len() {
        Some(values[index])
    } else {
        None
    }
}

/// The view behind an optional reference.
pub open spec fn optional_view_of(slot: Option<&WireValue>) -> Option<WireView> {
    match slot {
        Some(value) => Some(value@),
        None => None,
    }
}

/// An optional value read as a `u64`: absent stays absent, and a value that
/// is there has to be one.
pub open spec fn as_optional_u64(slot: Option<WireView>) -> Result<Option<u64>, ParseErrorView> {
    match slot {
        None => Ok(None),
        Some(value) => match as_u64(value) {
            Ok(n) => Ok(Some(n)),
            Err(e) => Err(e),
        },
    }
}

/// An optional value read as a number: absent stays absent, and a value that
/// is there has to be one.
pub open spec fn as_optional_number(slot: Option<WireView>) -> Result<
    Option<Number>,
    ParseErrorView,
> {
    match slot {
        None => Ok(None),
        Some(value) => match as_number(value) {
            Ok(n) => Ok(Some(n)),
            Err(e) => Err(e),
        },
    }
}

/// The optional slots of a parameter tuple: slot `k` holds the value at
/// position `required + k` if the tuple is that long.
pub open spec fn optional_slots(values: Seq<WireView>, required: nat, optional: nat) -> Seq<
    Option<WireView>,
> {
    Seq::new(optional, |k: int| slot_at(values, required + k))
}

/// The views behind a sequence of optional references.
pub open spec fn optional_views_of(slots: Seq<Option<&WireValue>>) -> Seq<Option<WireView>> {
    Seq::new(slots.len(), |k: int| optional_view_of(slots[k]))
}

/// Reads an array as its items.
pub fn parse_array<'a>(array_value: &'a WireValue) -> (r: Result<&'a Vec<WireValue>, ParseError>)
    ensures
        r matches Ok(items) ==> *array_value == WireValue::Array(*items) && as_array(array_value@)
            == Ok::<Seq<WireView>, ParseErrorView>(views_of(items@)),
        r matches Err(e) ==> as_array(array_value@) == Err::<Seq<WireView>, ParseErrorView>(e@),
{
    match array_value {
        WireValue::Array(items) => Ok(items),
        _ => Err(ParseError::Array(array_value.clone())),
    }
}

/// Reads a map as its key/value pairs, in wire order.
pub fn parse_map<'a>(map_value: &'a WireValue) -> (r: Result<
    &'a Vec<(WireValue, WireValue)>,
    ParseError,
>)
    ensures
        r matches Ok(pairs) ==> *map_value == WireValue::Mapping(*pairs) && as_mapping(map_value@)
            == Ok::<Seq<(WireView, WireView)>, ParseErrorView>(pair_views_of(pairs@)),
        r matches Err(e) ==> as_mapping(map_value@) == Err::<
            Seq<(WireView, WireView)>,
            ParseErrorView,
        >(e@),
{
    match map_value {
        WireValue::Mapping(pairs) => Ok(pairs),
        _ => Err(ParseError::Mapping(map_value.clone())),
    }
}

/// Reads a string as its text. A string that is not UTF-8 is no error: it
/// reads as the single character U+FFFD.
pub fn parse_string(string_value: &WireValue) -> (r: Result<String, ParseError>)
    ensures
        yields_view(r, as_string(string_value@)),
{
    match string_value {
        WireValue::String(text) => Ok(text.clone()),
        WireValue::RawString(bytes) => match string_from_utf8(bytes.clone()) {
            Some(text) => Ok(text),
            None => Ok(String::from_str("\u{FFFD}")),
        },
        _ => Err(ParseError::String(string_value.clone())),
    }
}

/// The text of a value that is text.
pub fn read_text(value: &WireValue) -> (text: Option<String>)
    ensures
        text matches Some(t) ==> text_of(value@) == Some(t@),
        text is None ==> text_of(value@) is None,
{
    match value {
        WireValue::String(text) => Some(text.clone()),
        WireValue::RawString(bytes) => string_from_utf8(bytes.clone()),
        _ => None,
    }
}

/// The integer of a value that is an integer within `u64`.
pub fn read_u64(value: &WireValue) -> (n: Option<u64>)
    ensures
        n matches Some(n) ==> as_u64(value@) == Ok::<u64, ParseErrorView>(n),
        n is None ==> as_u64(value@) is Err,
{
    match value {
        WireValue::Unsigned(n) => Some(*n),
        WireValue::Signed(n) => if *n >= 0 {
            Some(*n as u64)
        } else {
            None
        },
        _ => None,
    }
}

/// Reads an integer of either encoding that fits `u64`.
pub fn parse_u64(u64_value: &WireValue) -> (r: Result<u64, ParseError>)
    ensures
        yields(r, as_u64(u64_value@)),
{
    match read_u64(u64_value) {
        Some(n) => Ok(n),
        None => Err(ParseError::U64(u64_value.clone())),
    }
}

/// Reads an integer of either encoding that fits `i64`.
pub fn parse_i64(i64_value: &WireValue) -> (r: Result<i64, ParseError>)
    ensures
        yields(r, as_i64(i64_value@)),
{
    match i64_value {
        WireValue::Signed(n) => Ok(*n),
        WireValue::Unsigned(n) => if *n <= 0x7fff_ffff_ffff_ffff {
            Ok(*n as i64)
        } else {
            Err(ParseError::I64(i64_value.clone()))
        },
        _ => Err(ParseError::I64(i64_value.clone())),
    }
}

/// Reads a number that is meant as a double: an integer, or a float of
/// either precision. The number is handed on in the form in which it came.
pub fn parse_f64(f64_value: &WireValue) -> (r: Result<Number, ParseError>)
    ensures
        yields(r, as_number(f64_value@)),
{
    match f64_value {
        WireValue::Unsigned(n) => Ok(Number::Unsigned(*n)),
        WireValue::Signed(n) => if *n >= 0 {
            Ok(Number::Unsigned(*n as u64))
        } else {
            Ok(Number::Signed(*n))
        },
        WireValue::Float32(bits) => Ok(Number::Single(*bits)),
        WireValue::Float64(bits) => Ok(Number::Double(*bits)),
        _ => Err(ParseError::F64(f64_value.clone())),
    }
}

/// Reads a boolean.
pub fn parse_bool(bool_value: &WireValue) -> (r: Result<bool, ParseError>)
    ensures
        yields(r, as_bool(bool_value@)),
{
    match bool_value {
        WireValue::Boolean(b) => Ok(*b),
        _ => Err(ParseError::Bool(bool_value.clone())),
    }
}

/// Reads an optional slot as a `u64`: an empty slot stays empty, and a
/// value that is there has to be one.
pub fn parse_optional_u64(slot: Option<&WireValue>) -> (r: Result<Option<u64>, ParseError>)
    ensures
        yields(r, as_optional_u64(optional_view_of(slot))),
{
    match slot {
        None => Ok(None),
        Some(value) => {
            let n = parse_u64(value)?;
            Ok(Some(n))
        },
    }
}

/// Reads an optional slot as a number: an empty slot stays empty, and a
/// value that is there has to be one.
pub fn parse_optional_f64(slot: Option<&WireValue>) -> (r: Result<Option<Number>, ParseError>)
    ensures
        yields(r, as_optional_number(optional_view_of(slot))),
{
    match slot {
        None => Ok(None),
        Some(value) => {
            let n = parse_f64(value)?;
            Ok(Some(n))
        },
    }
}

/// The first `required` values of a parameter tuple. A shorter tuple is a
/// structural error that carries a dump of the tuple; values past the
/// required ones are left aside.
pub fn extract_values<'a>(values: &'a Vec<WireValue>, required: usize) -> (r: Result<
    Vec<&'a WireValue>,
    ParseError,
>)
    ensures
        r is Ok <==> required <= values.len(),
        r matches Ok(slots) ==> slots@.len() == required && (forall|i: int|
            0 <= i < required ==> *slots@[i] == values@[i]) && ref_views_of(slots@) == views_of(
            values@,
        ).take(required as int),
        r matches Err(e) ==> e@ == shape_error(views_of(values@)),
{
    if required > values.len() {
        Err(ParseError::Format(debug_text(values)))
    } else {
        let mut slots: Vec<&'a WireValue> = Vec::new();
        let mut i: usize = 0;
        while i < required
            invariant
                i <= required <= values.len(),
                slots@.len() == i,
                forall|k: int| 0 <= k < i ==> *slots@[k] == values@[k],
            decreases required - i,
        {
            slots.push(&values[i]);
            i += 1;
        }
        Ok(slots)
    }
}

/// The first `required` values of a parameter tuple and its `optional`
/// optional slots. A tuple shorter than `required` is a structural error
/// that carries a dump of the tuple; an optional slot is filled if the tuple
/// reaches it; values past the last slot are left aside.
pub fn extract_values_with_optional<'a>(
    values: &'a Vec<WireValue>,
    required: usize,
    optional: usize,
) -> (r: Result<(Vec<&'a WireValue>, Vec<Option<&'a WireValue>>), ParseError>)
    ensures
        r is Ok <==> required <= values.len(),
        r matches Ok(slots) ==> slots.0@.len() == required && (forall|i: int|
            0 <= i < required ==> *slots.0@[i] == values@[i]) && ref_views_of(slots.0@)
            == views_of(values@).take(required as int),
        r matches Ok(slots) ==> slots.1@.len() == optional && (forall|k: int|
            0 <= k < optional ==> slots.1@[k] == if required + k < values.len() {
                Some(&values@[required + k])
            } else {
                None
            }) && optional_views_of(slots.1@) == optional_slots(
            views_of(values@),
            required as nat,
            optional as nat,
        ),
        r matches Err(e) ==> e@ == shape_error(views_of(values@)),
{
    let required_slots = extract_values(values, required)?;
    let mut optional_slots_found: Vec<Option<&'a WireValue>> = Vec::new();
    let mut k: usize = 0;
    while k < optional
        invariant
            k <= optional,
            required <= values.len(),
            optional_slots_found@.len() == k,
            forall|j: int|
                0 <= j < k ==> optional_slots_found@[j] == if required + j < values.len() {
                    Some(&values@[required + j])
                } else {
                    None
                },
        decreases optional - k,
    {
        if k < values.len() - required {
            optional_slots_found.push(Some(&values[required + k]));
        } else {
            optional_slots_found.push(None);
        }
        k += 1;
    }
    Ok((required_slots, optional_slots_found))
}

} // verus!
