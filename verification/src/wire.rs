//! The dynamic value that the decoder consumes, and its mathematical view.

use vstd::prelude::*;
use vstd::utf8::{decode_utf8, valid_utf8};

verus! {

/// One MessagePack value as it arrives on the wire.
///
/// Floating-point numbers are held by their IEEE 754 bit patterns. A string
/// is either text, or the raw bytes of a wire string whose payload has not
/// been checked to be UTF-8.
#[derive(Debug, PartialEq)]
pub enum WireValue {
    Nil,
    Boolean(bool),
    /// An integer sent in one of the unsigned formats.
    Unsigned(u64),
    /// An integer sent in one of the signed formats.
    Signed(i64),
    /// A single-precision float, by its bits.
    Float32(u32),
    /// A double-precision float, by its bits.
    Float64(u64),
    String(String),
    /// A wire string by its payload bytes, which need not be UTF-8.
    RawString(Vec<u8>),
    Binary(Vec<u8>),
    Array(Vec<WireValue>),
    /// Key/value pairs in wire order.
    Mapping(Vec<(WireValue, WireValue)>),
    /// An extension value: its type tag and payload.
    Ext(i8, Vec<u8>),
}

/// What a [`WireValue`] denotes.
///
/// The two integer encodings collapse into one mathematical integer, and a
/// raw string whose bytes are UTF-8 denotes the same value as the text.
pub ghost enum WireView {
    Nil,
    Boolean(bool),
    Integer(int),
    Float32(u32),
    Float64(u64),
    String(Seq<char>),
    /// The payload of a wire string that is not UTF-8.
    RawString(Seq<u8>),
    Binary(Seq<u8>),
    Array(Seq<WireView>),
    Mapping(Seq<(WireView, WireView)>),
    Ext(i8, Seq<u8>),
}

/// The value that a wire string with payload `bytes` denotes.
pub open spec fn raw_string_view(bytes: Seq<u8>) -> WireView {
    if valid_utf8(bytes) {
        WireView::String(decode_utf8(bytes))
    } else {
        WireView::RawString(bytes)
    }
}

/// The views of a sequence of values, in order.
pub open spec fn views_of(values: Seq<WireValue>) -> Seq<WireView>
    decreases values,
{
    Seq::new(
        values.len(),
        |i: int|
            if 0 <= i < values.len() {
                values[i].view()
            } else {
                WireView::Nil
            },
    )
}

/// The views of a sequence of key/value pairs, in order.
pub open spec fn pair_views_of(pairs: Seq<(WireValue, WireValue)>) -> Seq<(WireView, WireView)>
    decreases pairs,
{
    Seq::new(
        pairs.len(),
        |i: int|
            if 0 <= i < pairs.len() {
                (pairs[i].0.view(), pairs[i].1.view())
            } else {
                (WireView::Nil, WireView::Nil)
            },
    )
}

impl View for WireValue {
    type V = WireView;

    open spec fn view(&self) -> WireView
        decreases self,
    {
        match self {
            WireValue::Nil => WireView::Nil,
            WireValue::Boolean(b) => WireView::Boolean(*b),
            WireValue::Unsigned(n) => WireView::Integer(*n as int),
            WireValue::Signed(n) => WireView::Integer(*n as int),
            WireValue::Float32(bits) => WireView::Float32(*bits),
            WireValue::Float64(bits) => WireView::Float64(*bits),
            WireValue::String(s) => WireView::String(s@),
            WireValue::RawString(bytes) => raw_string_view(bytes@),
            WireValue::Binary(bytes) => WireView::Binary(bytes@),
            WireValue::Array(items) => WireView::Array(views_of(items@)),
            WireValue::Mapping(pairs) => WireView::Mapping(pair_views_of(pairs@)),
            WireValue::Ext(tag, bytes) => WireView::Ext(*tag, bytes@),
        }
    }
}

/// The views of the values behind a sequence of references, in order.
pub open spec fn ref_views_of(values: Seq<&WireValue>) -> Seq<WireView> {
    Seq::new(values.len(), |i: int| values[i]@)
}

impl Clone for WireValue {
    /// A deep copy: it denotes the same value.
    fn clone(&self) -> (copy: Self)
        ensures
            copy@ == self@,
        decreases self,
    {
        match self {
            WireValue::Nil => WireValue::Nil,
            WireValue::Boolean(b) => WireValue::Boolean(*b),
            WireValue::Unsigned(n) => WireValue::Unsigned(*n),
            WireValue::Signed(n) => WireValue::Signed(*n),
            WireValue::Float32(bits) => WireValue::Float32(*bits),
            WireValue::Float64(bits) => WireValue::Float64(*bits),
            WireValue::String(s) => WireValue::String(s.clone()),
            WireValue::RawString(bytes) => WireValue::RawString(bytes.clone()),
            WireValue::Binary(bytes) => WireValue::Binary(bytes.clone()),
            WireValue::Array(items) => {
                let mut copies: Vec<WireValue> = Vec::new();
                let mut i: usize = 0;
                while i < items.len()
                    invariant
                        self is Array,
                        self->Array_0 == *items,
                        i <= items.len(),
                        copies@.len() == i,
                        forall|k: int| 0 <= k < i ==> copies@[k]@ == items@[k]@,
                    decreases items.len() - i,
                {
                    copies.push(items[i].clone());
                    i += 1;
                }
                assert(views_of(copies@) =~= views_of(items@));
                WireValue::Array(copies)
            },
            WireValue::Mapping(pairs) => {
                let mut copies: Vec<(WireValue, WireValue)> = Vec::new();
                let mut i: usize = 0;
                while i < pairs.len()
                    invariant
                        self is Mapping,
                        self->Mapping_0 == *pairs,
                        i <= pairs.len(),
                        copies@.len() == i,
                        forall|k: int|
                            0 <= k < i ==> copies@[k].0@ == pairs@[k].0@ && copies@[k].1@
                                == pairs@[k].1@,
                    decreases pairs.len() - i,
                {
                    let key = pairs[i].0.clone();
                    let value = pairs[i].1.clone();
                    copies.push((key, value));
                    i += 1;
                }
                assert(pair_views_of(copies@) =~= pair_views_of(pairs@));
                WireValue::Mapping(copies)
            },
            WireValue::Ext(tag, bytes) => WireValue::Ext(*tag, bytes.clone()),
        }
    }
}

/// A number that the consumer reads as a 64-bit float.
///
/// The wire may carry it as an integer, as a single-precision float or as a
/// double-precision float. The variant records which, so that no rounding
/// happens here: an integer is meant to be converted to the nearest double,
/// a single is meant to be widened.
#[derive(Clone, Copy, Debug, PartialEq, Eq, Structural)]
pub enum Number {
    /// A non-negative integer.
    Unsigned(u64),
    /// A negative integer.
    Signed(i64),
    /// The bits of a single-precision float.
    Single(u32),
    /// The bits of a double-precision float.
    Double(u64),
}

} // verus!
