//! Decoder for the `redraw` notifications that a Neovim process sends to an
//! attached UI.
//!
//! A notification entry arrives as a loosely typed MessagePack value: the
//! name of an event, followed by one parameter tuple for each occurrence of
//! the event. [`parse_redraw_event`] checks the shape of such a value and
//! lifts it into a sequence of typed [`RedrawEvent`]s, or reports the first
//! malformed parameter tuple as a [`ParseError`]. What is accepted although
//! the protocol does not describe it goes as a [`Notice`] to the sink of
//! [`parse_redraw_event_noting`].
//!
//! Every function states its result over mathematical views of the data
//! ([`WireView`], [`RedrawEventView`], ...), and the `spec` functions named in
//! the contracts are the definition of the decoder: [`redraw_events`] for a
//! whole notification body, one function for each event below it. The
//! module [`laws`] holds what follows for the decoder as a whole.
//!
//! The texts that error messages quote are produced by the `rmpv` crate; the
//! module [`render`] is the border to it.

pub mod bits;
pub mod content;
pub mod dispatch;
pub mod editor;
pub mod error;
pub mod event;
pub mod extract;
pub mod grid;
pub mod laws;
pub mod mode;
pub mod notice;
pub mod render;
pub mod sequence;
pub mod style;
pub mod text;
pub mod window;
pub mod wire;

pub use dispatch::{
    parse_redraw_event, parse_redraw_event_noting, redraw_events, redraw_notices, EventName,
};
pub use editor::{Color, Colors, CursorMode, CursorShape, Style, UnderlineStyle};
pub use error::{ParseError, ParseErrorView};
pub use event::{
    EditorMode, GridLineCell, GuiOption, MessageKind, RedrawEvent, RedrawEventView, StyledContent,
    WindowAnchor,
};
pub use notice::{CursorField, Notice, NoticeView};
pub use wire::{Number, WireValue, WireView};
