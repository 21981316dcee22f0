//! Text renderings of wire values, as the `rmpv` crate prints them.
//!
//! Error messages quote the offending value, or dump a whole parameter
//! tuple. Both texts are produced by `rmpv`: a [`WireValue`] is rebuilt as an
//! `rmpv::Value` and formatted. What the texts hold is not modelled; the
//! contracts name them ([`value_display_text`], [`values_debug_text`]) as
//! functions of the value that was formatted.

use vstd::prelude::*;
use crate::bits::{byte_of, low_byte};
use crate::wire::{pair_views_of, raw_string_view, views_of, WireValue, WireView};
use crate::text::string_from_utf8;

verus! {

/// `rmpv::Value`, the MessagePack value of the `rmpv` crate. Nothing is
/// known of what is inside one but through [`wire_view`].
#[verifier::external_type_specification]
#[verifier::external_body]
pub struct ExRmpvValue(rmpv::Value);

/// What an `rmpv::Value` holds: integers as mathematical integers, floats by
/// their bits, a string as its text when it is UTF-8 and as its bytes
/// otherwise.
pub uninterp spec fn wire_view(w: rmpv::Value) -> WireView;

/// The text that `rmpv` prints with `{}` for a value that holds `value`.
pub uninterp spec fn value_display_text(value: WireView) -> Seq<char>;

/// The text that `{:?}` prints for a vector of `rmpv` values that hold
/// `values`, in order.
pub uninterp spec fn values_debug_text(values: Seq<WireView>) -> Seq<char>;

/// What a sequence of `rmpv` values holds, in order.
pub open spec fn wire_views_of(ws: Seq<rmpv::Value>) -> Seq<WireView> {
    Seq::new(ws.len(), |i: int| wire_view(ws[i]))
}

/// What a sequence of pairs of `rmpv` values holds, in order.
pub open spec fn wire_pair_views_of(ws: Seq<(rmpv::Value, rmpv::Value)>) -> Seq<
    (WireView, WireView),
> {
    Seq::new(ws.len(), |i: int| (wire_view(ws[i].0), wire_view(ws[i].1)))
}

/// `rmpv::Value::Nil` holds nil.
#[verifier::external_body]
fn wire_nil() -> (w: rmpv::Value)
    ensures
        wire_view(w) == WireView::Nil,
{
    rmpv::Value::Nil
}

/// `rmpv::Value::Boolean` holds the given boolean.
#[verifier::external_body]
fn wire_boolean(b: bool) -> (w: rmpv::Value)
    ensures
        wire_view(w) == WireView::Boolean(b),
{
    rmpv::Value::Boolean(b)
}

/// `rmpv::Value::from` on a `u64` gives an integer value that holds it.
#[verifier::external_body]
fn wire_unsigned(n: u64) -> (w: rmpv::Value)
    ensures
        wire_view(w) == WireView::Integer(n as int),
{
    rmpv::Value::from(n)
}

/// `rmpv::Value::from` on an `i64` gives an integer value that holds it.
#[verifier::external_body]
fn wire_signed(n: i64) -> (w: rmpv::Value)
    ensures
        wire_view(w) == WireView::Integer(n as int),
{
    rmpv::Value::from(n)
}

/// `rmpv::Value::from` on a `String` gives a string value that holds the
/// text.
#[verifier::external_body]
fn wire_string(s: String) -> (w: rmpv::Value)
    ensures
        wire_view(w) == WireView::String(s@),
{
    rmpv::Value::from(s)
}

/// `rmpv::Value::Binary` holds the given bytes.
#[verifier::external_body]
fn wire_binary(bytes: Vec<u8>) -> (w: rmpv::Value)
    ensures
        wire_view(w) == WireView::Binary(bytes@),
{
    rmpv::Value::Binary(bytes)
}

/// `rmpv::Value::Array` holds the given values, in order.
#[verifier::external_body]
fn wire_array(items: Vec<rmpv::Value>) -> (w: rmpv::Value)
    ensures
        wire_view(w) == WireView::Array(wire_views_of(items@)),
{
    rmpv::Value::Array(items)
}

/// `rmpv::Value::Map` holds the given pairs, in order.
#[verifier::external_body]
fn wire_mapping(pairs: Vec<(rmpv::Value, rmpv::Value)>) -> (w: rmpv::Value)
    ensures
        wire_view(w) == WireView::Mapping(wire_pair_views_of(pairs@)),
{
    rmpv::Value::Map(pairs)
}

/// `rmpv::Value::Ext` holds the given type tag and payload.
#[verifier::external_body]
fn wire_ext(tag: i8, bytes: Vec<u8>) -> (w: rmpv::Value)
    ensures
        wire_view(w) == WireView::Ext(tag, bytes@),
{
    rmpv::Value::Ext(tag, bytes)
}

/// The MessagePack encoding `float 32` of the float with the given bits.
pub open spec fn float32_frame(bits: u32) -> Seq<u8> {
    seq![
        0xcau8,
        byte_of(bits as u64, 3),
        byte_of(bits as u64, 2),
        byte_of(bits as u64, 1),
        byte_of(bits as u64, 0),
    ]
}

/// The MessagePack encoding `float 64` of the float with the given bits.
pub open spec fn float64_frame(bits: u64) -> Seq<u8> {
    seq![
        0xcbu8,
        byte_of(bits, 7),
        byte_of(bits, 6),
        byte_of(bits, 5),
        byte_of(bits, 4),
        byte_of(bits, 3),
        byte_of(bits, 2),
        byte_of(bits, 1),
        byte_of(bits, 0),
    ]
}

/// The MessagePack encoding `str 32` of a string with the given payload.
pub open spec fn str32_frame(payload: Seq<u8>) -> Seq<u8> {
    seq![
        0xdbu8,
        byte_of(payload.len() as u64, 3),
        byte_of(payload.len() as u64, 2),
        byte_of(payload.len() as u64, 1),
        byte_of(payload.len() as u64, 0),
    ] + payload
}

/// `rmpv::decode::read_value` on a byte slice. Three encodings are stated:
/// a `float 32` and a `float 64` frame decode to the float with the bits
/// that the frame carries big-endian, and a `str 32` frame whose length
/// field fits its payload decodes to the string with that payload.
#[verifier::external_body]
fn wire_decode(frame: &Vec<u8>) -> (decoded: Option<rmpv::Value>)
    ensures
        forall|bits: u32|
            frame@ == #[trigger] float32_frame(bits) ==> decoded is Some && wire_view(decoded->0)
                == WireView::Float32(bits),
        forall|bits: u64|
            frame@ == #[trigger] float64_frame(bits) ==> decoded is Some && wire_view(decoded->0)
                == WireView::Float64(bits),
        forall|payload: Seq<u8>|
            payload.len() <= u32::MAX && frame@ == #[trigger] str32_frame(payload) ==> decoded
                is Some && wire_view(decoded->0) == raw_string_view(payload),
{
    rmpv::decode::read_value(&mut frame.as_slice()).ok()
}

/// The `{}` rendering of an `rmpv` value.
#[verifier::external_body]
fn wire_display(w: &rmpv::Value) -> (text: String)
    ensures
        text@ == value_display_text(wire_view(*w)),
{
    format!("{}", w)
}

/// The `{:?}` rendering of a vector of `rmpv` values.
#[verifier::external_body]
fn wire_debug(ws: &Vec<rmpv::Value>) -> (text: String)
    ensures
        text@ == values_debug_text(wire_views_of(ws@)),
{
    format!("{:?}", ws)
}

/// The value that is formatted in place of `value`.
///
/// It is `value` itself, but for a string that is not UTF-8 and is too long
/// for any MessagePack string: `rmpv` cannot hold one, and it is shown as
/// binary data with the same bytes.
pub open spec fn rendered(value: WireView) -> WireView
    decreases value,
{
    match value {
        WireView::RawString(bytes) => if bytes.len() <= u32::MAX {
            value
        } else {
            WireView::Binary(bytes)
        },
        WireView::Array(items) => WireView::Array(rendered_all(items)),
        WireView::Mapping(pairs) => WireView::Mapping(rendered_pairs(pairs)),
        _ => value,
    }
}

/// [`rendered`] of each value of a sequence.
pub open spec fn rendered_all(values: Seq<WireView>) -> Seq<WireView>
    decreases values,
{
    Seq::new(
        values.len(),
        |i: int|
            if 0 <= i < values.len() {
                rendered(values[i])
            } else {
                WireView::Nil
            },
    )
}

/// [`rendered`] of each key and value of a sequence of pairs.
pub open spec fn rendered_pairs(pairs: Seq<(WireView, WireView)>) -> Seq<(WireView, WireView)>
    decreases pairs,
{
    Seq::new(
        pairs.len(),
        |i: int|
            if 0 <= i < pairs.len() {
                (rendered(pairs[i].0), rendered(pairs[i].1))
            } else {
                (WireView::Nil, WireView::Nil)
            },
    )
}

/// Whether MessagePack can carry the value: no string in it that is not
/// UTF-8 is longer than the longest MessagePack string.
pub open spec fn fits_messagepack(value: WireView) -> bool
    decreases value,
{
    match value {
        WireView::RawString(bytes) => bytes.len() <= u32::MAX,
        WireView::Array(items) => forall|i: int|
            0 <= i < items.len() ==> fits_messagepack(#[trigger] items[i]),
        WireView::Mapping(pairs) => forall|i: int|
            0 <= i < pairs.len() ==> fits_messagepack((#[trigger] pairs[i]).0) && fits_messagepack(
                pairs[i].1,
            ),
        _ => true,
    }
}

/// What MessagePack can carry is formatted as it is.
pub proof fn lemma_rendered_as_it_is(value: WireView)
    requires
        fits_messagepack(value),
    ensures
        rendered(value) == value,
    decreases value,
{
    match value {
        WireView::Array(items) => {
            assert forall|i: int| 0 <= i < items.len() implies rendered(items[i]) == items[i] by {
                lemma_rendered_as_it_is(items[i]);
            }
            assert(rendered_all(items) =~= items);
        },
        WireView::Mapping(pairs) => {
            assert forall|i: int| 0 <= i < pairs.len() implies rendered(pairs[i].0) == pairs[i].0
                && rendered(pairs[i].1) == pairs[i].1 by {
                lemma_rendered_as_it_is(pairs[i].0);
                lemma_rendered_as_it_is(pairs[i].1);
            }
            assert(rendered_pairs(pairs) =~= pairs);
        },
        _ => {},
    }
}

/// The text that quotes `value` in an error message.
pub open spec fn display_text_of(value: WireView) -> Seq<char> {
    value_display_text(rendered(value))
}

/// The text that dumps the values `values` in an error message.
pub open spec fn debug_text_of(values: Seq<WireView>) -> Seq<char> {
    values_debug_text(rendered_all(values))
}

fn encode_float32(bits: u32) -> (frame: Vec<u8>)
    ensures
        frame@ == float32_frame(bits),
{
    let wide: u64 = bits as u64;
    let mut frame: Vec<u8> = Vec::new();
    frame.push(0xca);
    frame.push(low_byte(wide, 3));
    frame.push(low_byte(wide, 2));
    frame.push(low_byte(wide, 1));
    frame.push(low_byte(wide, 0));
    frame
}

fn encode_float64(bits: u64) -> (frame: Vec<u8>)
    ensures
        frame@ == float64_frame(bits),
{
    let mut frame: Vec<u8> = Vec::new();
    frame.push(0xcb);
    frame.push(low_byte(bits, 7));
    frame.push(low_byte(bits, 6));
    frame.push(low_byte(bits, 5));
    frame.push(low_byte(bits, 4));
    frame.push(low_byte(bits, 3));
    frame.push(low_byte(bits, 2));
    frame.push(low_byte(bits, 1));
    frame.push(low_byte(bits, 0));
    frame
}

fn encode_str32(payload: &Vec<u8>) -> (frame: Vec<u8>)
    requires
        payload.len() <= u32::MAX,
    ensures
        frame@ == str32_frame(payload@),
{
    let length: u64 = payload.len() as u64;
    let mut frame: Vec<u8> = Vec::new();
    frame.push(0xdb);
    frame.push(low_byte(length, 3));
    frame.push(low_byte(length, 2));
    frame.push(low_byte(length, 1));
    frame.push(low_byte(length, 0));
    let ghost header = frame@;
    let mut i: usize = 0;
    while i < payload.len()
        invariant
            i <= payload.len(),
            frame@ == header + payload@.take(i as int),
        decreases payload.len() - i,
    {
        frame.push(payload[i]);
        i += 1;
    }
    frame
}

/// The `rmpv` value that a frame decodes to. The frames that are built
/// here always decode; for any other, the value is nil.
fn decode_frame(frame: &Vec<u8>) -> (w: rmpv::Value)
    ensures
        forall|bits: u32|
            frame@ == #[trigger] float32_frame(bits) ==> wire_view(w) == WireView::Float32(bits),
        forall|bits: u64|
            frame@ == #[trigger] float64_frame(bits) ==> wire_view(w) == WireView::Float64(bits),
        forall|payload: Seq<u8>|
            payload.len() <= u32::MAX && frame@ == #[trigger] str32_frame(payload) ==> wire_view(w)
                == raw_string_view(payload),
{
    match wire_decode(frame) {
        Some(w) => w,
        None => wire_nil(),
    }
}

impl WireValue {
    /// Rebuilds the value as an `rmpv::Value`.
    ///
    /// `rmpv` offers no way to make a float from its bits, nor a string from
    /// bytes that are not UTF-8, but by decoding: such a value is encoded
    /// as MessagePack and read back by `rmpv`.
    pub fn to_rmpv(&self) -> (w: rmpv::Value)
        ensures
            wire_view(w) == rendered(self@),
        decreases self,
    {
        match self {
            WireValue::Nil => wire_nil(),
            WireValue::Boolean(b) => wire_boolean(*b),
            WireValue::Unsigned(n) => wire_unsigned(*n),
            WireValue::Signed(n) => wire_signed(*n),
            WireValue::Float32(bits) => decode_frame(&encode_float32(*bits)),
            WireValue::Float64(bits) => decode_frame(&encode_float64(*bits)),
            WireValue::String(s) => wire_string(s.clone()),
            WireValue::RawString(bytes) => {
                if bytes.len() <= 0xffff_ffff {
                    decode_frame(&encode_str32(bytes))
                } else {
                    match string_from_utf8(bytes.clone()) {
                        Some(s) => wire_string(s),
                        None => wire_binary(bytes.clone()),
                    }
                }
            },
            WireValue::Binary(bytes) => wire_binary(bytes.clone()),
            WireValue::Array(items) => {
                let ws = to_rmpv_all(items);
                wire_array(ws)
            },
            WireValue::Mapping(pairs) => {
                let mut ws: Vec<(rmpv::Value, rmpv::Value)> = Vec::new();
                let mut i: usize = 0;
                while i < pairs.len()
                    invariant
                        self is Mapping,
                        self->Mapping_0 == *pairs,
                        i <= pairs.len(),
                        ws@.len() == i,
                        forall|k: int|
                            0 <= k < i ==> wire_view(ws@[k].0) == rendered(pairs@[k].0@)
                                && wire_view(ws@[k].1) == rendered(pairs@[k].1@),
                    decreases pairs.len() - i,
                {
                    let key = pairs[i].0.to_rmpv();
                    let value = pairs[i].1.to_rmpv();
                    ws.push((key, value));
                    i += 1;
                }
                assert(wire_pair_views_of(ws@) =~= rendered_pairs(pair_views_of(pairs@)));
                wire_mapping(ws)
            },
            WireValue::Ext(tag, bytes) => wire_ext(*tag, bytes.clone()),
        }
    }
}

/// Rebuilds each value of `values` as an `rmpv::Value`.
fn to_rmpv_all(values: &Vec<WireValue>) -> (ws: Vec<rmpv::Value>)
    ensures
        wire_views_of(ws@) == rendered_all(views_of(values@)),
    decreases values,
{
    let mut ws: Vec<rmpv::Value> = Vec::new();
    let mut i: usize = 0;
    while i < values.len()
        invariant
            i <= values.len(),
            ws@.len() == i,
            forall|k: int| 0 <= k < i ==> wire_view(ws@[k]) == rendered(values@[k]@),
        decreases values.len() - i,
    {
        ws.push(values[i].to_rmpv());
        i += 1;
    }
    ws
}

/// The text that quotes `value` in an error message.
pub fn display_text(value: &WireValue) -> (text: String)
    ensures
        text@ == display_text_of(value@),
{
    let w = value.to_rmpv();
    wire_display(&w)
}

/// The text that dumps `values` in an error message.
pub fn debug_text(values: &Vec<WireValue>) -> (text: String)
    ensures
        text@ == debug_text_of(views_of(values@)),
{
    let ws = to_rmpv_all(values);
    wire_debug(&ws)
}

} // verus!
