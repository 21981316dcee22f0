//! The errors that decoding reports.

use vstd::prelude::*;
use vstd::string::StringExecFns;
use crate::render::{display_text, display_text_of};
use crate::wire::{WireValue, WireView};

verus! {

/// Why a value could not be decoded. Each variant but the last holds the
/// value that was found where the value that its name says was expected.
#[derive(Debug, PartialEq)]
pub enum ParseError {
    Array(WireValue),
    Mapping(WireValue),
    String(WireValue),
    U64(WireValue),
    I64(WireValue),
    F64(WireValue),
    Bool(WireValue),
    /// A window anchor other than `NW`, `NE`, `SW` and `SE`.
    WindowAnchor(WireValue),
    /// A structural failure, with a description of the value that has the
    /// wrong structure.
    Format(String),
}

/// What a [`ParseError`] denotes.
pub ghost enum ParseErrorView {
    Array(WireView),
    Mapping(WireView),
    String(WireView),
    U64(WireView),
    I64(WireView),
    F64(WireView),
    Bool(WireView),
    WindowAnchor(WireView),
    Format(Seq<char>),
}

impl View for ParseError {
    type V = ParseErrorView;

    open spec fn view(&self) -> ParseErrorView {
        match self {
            ParseError::Array(value) => ParseErrorView::Array(value@),
            ParseError::Mapping(value) => ParseErrorView::Mapping(value@),
            ParseError::String(value) => ParseErrorView::String(value@),
            ParseError::U64(value) => ParseErrorView::U64(value@),
            ParseError::I64(value) => ParseErrorView::I64(value@),
            ParseError::F64(value) => ParseErrorView::F64(value@),
            ParseError::Bool(value) => ParseErrorView::Bool(value@),
            ParseError::WindowAnchor(value) => ParseErrorView::WindowAnchor(value@),
            ParseError::Format(text) => ParseErrorView::Format(text@),
        }
    }
}

/// Whether the result `r` is what `expected` says: the same value, or the
/// same error.
pub open spec fn yields<T>(r: Result<T, ParseError>, expected: Result<T, ParseErrorView>) -> bool {
    match r {
        Ok(value) => expected == Ok::<T, ParseErrorView>(value),
        Err(e) => expected == Err::<T, ParseErrorView>(e@),
    }
}

/// Whether the result `r` is what `expected` says: a value that denotes the
/// same, or the same error.
pub open spec fn yields_view<T: View>(
    r: Result<T, ParseError>,
    expected: Result<T::V, ParseErrorView>,
) -> bool {
    match r {
        Ok(value) => expected == Ok::<T::V, ParseErrorView>(value@),
        Err(e) => expected == Err::<T::V, ParseErrorView>(e@),
    }
}

/// The phrase that opens the message of an error: it tells the kinds of
/// error apart.
pub open spec fn message_prefix(error: ParseErrorView) -> Seq<char> {
    match error {
        ParseErrorView::Array(_) => "invalid array format "@,
        ParseErrorView::Mapping(_) => "invalid map format "@,
        ParseErrorView::String(_) => "invalid string format "@,
        ParseErrorView::U64(_) => "invalid u64 format "@,
        ParseErrorView::I64(_) => "invalid i64 format "@,
        ParseErrorView::F64(_) => "invalid f64 format "@,
        ParseErrorView::Bool(_) => "invalid bool format "@,
        ParseErrorView::WindowAnchor(_) => "invalid window anchor format "@,
        ParseErrorView::Format(_) => "invalid event format "@,
    }
}

/// What follows the opening phrase: the offending value as text, or the
/// description that a structural failure carries.
pub open spec fn message_detail(error: ParseErrorView) -> Seq<char> {
    match error {
        ParseErrorView::Array(value) => display_text_of(value),
        ParseErrorView::Mapping(value) => display_text_of(value),
        ParseErrorView::String(value) => display_text_of(value),
        ParseErrorView::U64(value) => display_text_of(value),
        ParseErrorView::I64(value) => display_text_of(value),
        ParseErrorView::F64(value) => display_text_of(value),
        ParseErrorView::Bool(value) => display_text_of(value),
        ParseErrorView::WindowAnchor(value) => display_text_of(value),
        ParseErrorView::Format(text) => text,
    }
}

/// The message of an error.
pub open spec fn message_of(error: ParseErrorView) -> Seq<char> {
    message_prefix(error) + message_detail(error)
}

fn phrase(prefix: &str, value: &WireValue) -> (text: String)
    ensures
        text@ == prefix@ + display_text_of(value@),
{
    let mut text = String::from_str(prefix);
    let shown = display_text(value);
    text.append(shown.as_str());
    text
}

impl ParseError {
    /// The message of the error. The whole context of the error is in this
    /// text: an error has no other error as its source.
    pub fn message(&self) -> (text: String)
        ensures
            text@ == message_of(self@),
    {
        match self {
            ParseError::Array(value) => phrase("invalid array format ", value),
            ParseError::Mapping(value) => phrase("invalid map format ", value),
            ParseError::String(value) => phrase("invalid string format ", value),
            ParseError::U64(value) => phrase("invalid u64 format ", value),
            ParseError::I64(value) => phrase("invalid i64 format ", value),
            ParseError::F64(value) => phrase("invalid f64 format ", value),
            ParseError::Bool(value) => phrase("invalid bool format ", value),
            ParseError::WindowAnchor(value) => phrase("invalid window anchor format ", value),
            ParseError::Format(description) => {
                let mut text = String::from_str("invalid event format ");
                text.append(description.as_str());
                text
            },
        }
    }
}

impl Clone for ParseError {
    fn clone(&self) -> (copy: Self)
        ensures
            copy@ == self@,
    {
        match self {
            ParseError::Array(value) => ParseError::Array(value.clone()),
            ParseError::Mapping(value) => ParseError::Mapping(value.clone()),
            ParseError::String(value) => ParseError::String(value.clone()),
            ParseError::U64(value) => ParseError::U64(value.clone()),
            ParseError::I64(value) => ParseError::I64(value.clone()),
            ParseError::F64(value) => ParseError::F64(value.clone()),
            ParseError::Bool(value) => ParseError::Bool(value.clone()),
            ParseError::WindowAnchor(value) => ParseError::WindowAnchor(value.clone()),
            ParseError::Format(text) => ParseError::Format(text.clone()),
        }
    }
}

} // verus!
