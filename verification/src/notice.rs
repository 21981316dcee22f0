//! What the decoder has to say besides its result.
//!
//! Some input is accepted although it is not what the protocol describes:
//! a style attribute that is not known, a cursor coordinate below zero. The
//! decoder goes on, and hands a notice to the sink that its caller gave it,
//! for the caller's log.

use vstd::prelude::*;

verus! {

/// A coordinate of the cursor.
#[derive(Clone, Copy, Debug, PartialEq, Eq)]
pub enum CursorField {
    Row,
    Column,
}

/// Something that was accepted and is worth a line in the log.
#[derive(Clone, Debug, PartialEq, Eq)]
pub enum Notice {
    /// A cursor coordinate was negative and was taken as 0. This is worth a
    /// warning.
    NegativeCursor { field: CursorField, value: i64 },
    /// A style attribute was passed over: its name is not known, or its
    /// value is not of the kind that the name asks for.
    IgnoredStyleAttribute { name: String },
    /// A style attribute was passed over because its key is no text.
    InvalidStyleAttribute,
}

/// What a [`Notice`] denotes.
pub ghost enum NoticeView {
    NegativeCursor { field: CursorField, value: i64 },
    IgnoredStyleAttribute { name: Seq<char> },
    InvalidStyleAttribute,
}

impl View for Notice {
    type V = NoticeView;

    open spec fn view(&self) -> NoticeView {
        match self {
            Notice::NegativeCursor { field, value } => NoticeView::NegativeCursor {
                field: *field,
                value: *value,
            },
            Notice::IgnoredStyleAttribute { name } => NoticeView::IgnoredStyleAttribute {
                name: name@,
            },
            Notice::InvalidStyleAttribute => NoticeView::InvalidStyleAttribute,
        }
    }
}

/// The views of a sequence of notices, in order.
pub open spec fn notice_views_of(notices: Seq<Notice>) -> Seq<NoticeView> {
    Seq::new(notices.len(), |i: int| notices[i]@)
}

impl Notice {
    /// Whether the notice is worth a warning; the others are for debugging.
    pub fn is_warning(&self) -> (yes: bool)
        ensures
            yes == (self@ is NegativeCursor),
    {
        match self {
            Notice::NegativeCursor { .. } => true,
            _ => false,
        }
    }
}

/// Appends a notice to a sink.
pub fn note(notices: &mut Vec<Notice>, notice: Notice)
    ensures
        final(notices)@ == old(notices)@.push(notice),
        notice_views_of(final(notices)@) == notice_views_of(old(notices)@).push(notice@),
{
    notices.push(notice);
}

} // verus!
