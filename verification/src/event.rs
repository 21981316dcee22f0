//! The typed events that a redraw notification decodes to.

use vstd::prelude::*;
use crate::editor::{Colors, CursorMode, Style};
use crate::text::str_equal;
use crate::wire::{Number, WireValue, WireView};

verus! {

/// One cell of a [`RedrawEvent::GridLine`].
#[derive(Clone, Debug, PartialEq)]
pub struct GridLineCell {
    /// The text to put in the cell. It is empty for the right half of a
    /// double-width character.
    pub text: String,
    /// The highlight of the cell. `None` means the highlight of the cell
    /// before it in the same event; the first cell of an event always has
    /// one.
    pub highlight_id: Option<u64>,
    /// How many times the cell is drawn; once, if `None`.
    pub repeat: Option<u64>,
}

/// What a [`GridLineCell`] denotes.
pub ghost struct GridLineCellView {
    pub text: Seq<char>,
    pub highlight_id: Option<u64>,
    pub repeat: Option<u64>,
}

impl View for GridLineCell {
    type V = GridLineCellView;

    open spec fn view(&self) -> GridLineCellView {
        GridLineCellView { text: self.text@, highlight_id: self.highlight_id, repeat: self.repeat }
    }
}

/// The views of a sequence of cells, in order.
pub open spec fn cell_views_of(cells: Seq<GridLineCell>) -> Seq<GridLineCellView> {
    Seq::new(cells.len(), |i: int| cells[i]@)
}

/// Text in chunks, each with the id of its highlight.
pub type StyledContent = Vec<(u64, String)>;

/// What a [`StyledContent`] denotes.
pub type StyledContentView = Seq<(u64, Seq<char>)>;

/// The view of styled content.
pub open spec fn content_view_of(content: Seq<(u64, String)>) -> StyledContentView {
    Seq::new(content.len(), |i: int| (content[i].0, content[i].1@))
}

/// The views of a sequence of styled contents, in order.
pub open spec fn content_views_of(lines: Seq<StyledContent>) -> Seq<StyledContentView> {
    Seq::new(lines.len(), |i: int| content_view_of(lines[i]@))
}

/// The kind of a message.
#[derive(Clone, Copy, Debug, PartialEq, Eq)]
pub enum MessageKind {
    Unknown,
    Confirm,
    ConfirmSubstitute,
    Error,
    Echo,
    EchoMessage,
    EchoError,
    LuaError,
    RpcError,
    ReturnPrompt,
    QuickFix,
    SearchCount,
    Warning,
}

/// The message kind that a wire tag stands for. A tag outside the table
/// stands for [`MessageKind::Unknown`].
pub open spec fn message_kind_named(kind: Seq<char>) -> MessageKind {
    if kind == "confirm"@ {
        MessageKind::Confirm
    } else if kind == "confirm_sub"@ {
        MessageKind::ConfirmSubstitute
    } else if kind == "emsg"@ {
        MessageKind::Error
    } else if kind == "echo"@ {
        MessageKind::Echo
    } else if kind == "echomsg"@ {
        MessageKind::EchoMessage
    } else if kind == "echoerr"@ {
        MessageKind::EchoError
    } else if kind == "lua_error"@ {
        MessageKind::LuaError
    } else if kind == "rpc_error"@ {
        MessageKind::RpcError
    } else if kind == "return_prompt"@ {
        MessageKind::ReturnPrompt
    } else if kind == "quickfix"@ {
        MessageKind::QuickFix
    } else if kind == "search_count"@ {
        MessageKind::SearchCount
    } else if kind == "wmsg"@ {
        MessageKind::Warning
    } else {
        MessageKind::Unknown
    }
}

impl MessageKind {
    /// The message kind that a wire tag stands for.
    pub fn parse(kind: &str) -> (parsed: MessageKind)
        ensures
            parsed == message_kind_named(kind@),
    {
        if str_equal(kind, "confirm") {
            MessageKind::Confirm
        } else if str_equal(kind, "confirm_sub") {
            MessageKind::ConfirmSubstitute
        } else if str_equal(kind, "emsg") {
            MessageKind::Error
        } else if str_equal(kind, "echo") {
            MessageKind::Echo
        } else if str_equal(kind, "echomsg") {
            MessageKind::EchoMessage
        } else if str_equal(kind, "echoerr") {
            MessageKind::EchoError
        } else if str_equal(kind, "lua_error") {
            MessageKind::LuaError
        } else if str_equal(kind, "rpc_error") {
            MessageKind::RpcError
        } else if str_equal(kind, "return_prompt") {
            MessageKind::ReturnPrompt
        } else if str_equal(kind, "quickfix") {
            MessageKind::QuickFix
        } else if str_equal(kind, "search_count") {
            MessageKind::SearchCount
        } else if str_equal(kind, "wmsg") {
            MessageKind::Warning
        } else {
            MessageKind::Unknown
        }
    }
}

/// The views of the entries of a message history, in order.
pub open spec fn entry_views_of(entries: Seq<(MessageKind, StyledContent)>) -> Seq<
    (MessageKind, StyledContentView),
> {
    Seq::new(entries.len(), |i: int| (entries[i].0, content_view_of(entries[i].1@)))
}

/// An option of the UI: one of the known ones with its value, or any other
/// by its name and the value as it came.
#[derive(Clone, Debug, PartialEq)]
pub enum GuiOption {
    ArabicShape(bool),
    AmbiWidth(String),
    Emoji(bool),
    GuiFont(String),
    GuiFontSet(String),
    GuiFontWide(String),
    LineSpace(Number),
    Pumblend(u64),
    ShowTabLine(u64),
    TermGuiColors(bool),
    Unknown(String, WireValue),
}

/// What a [`GuiOption`] denotes.
pub ghost enum GuiOptionView {
    ArabicShape(bool),
    AmbiWidth(Seq<char>),
    Emoji(bool),
    GuiFont(Seq<char>),
    GuiFontSet(Seq<char>),
    GuiFontWide(Seq<char>),
    LineSpace(Number),
    Pumblend(u64),
    ShowTabLine(u64),
    TermGuiColors(bool),
    Unknown(Seq<char>, WireView),
}

impl View for GuiOption {
    type V = GuiOptionView;

    open spec fn view(&self) -> GuiOptionView {
        match self {
            GuiOption::ArabicShape(on) => GuiOptionView::ArabicShape(*on),
            GuiOption::AmbiWidth(text) => GuiOptionView::AmbiWidth(text@),
            GuiOption::Emoji(on) => GuiOptionView::Emoji(*on),
            GuiOption::GuiFont(text) => GuiOptionView::GuiFont(text@),
            GuiOption::GuiFontSet(text) => GuiOptionView::GuiFontSet(text@),
            GuiOption::GuiFontWide(text) => GuiOptionView::GuiFontWide(text@),
            GuiOption::LineSpace(space) => GuiOptionView::LineSpace(*space),
            GuiOption::Pumblend(blend) => GuiOptionView::Pumblend(*blend),
            GuiOption::ShowTabLine(mode) => GuiOptionView::ShowTabLine(*mode),
            GuiOption::TermGuiColors(on) => GuiOptionView::TermGuiColors(*on),
            GuiOption::Unknown(name, value) => GuiOptionView::Unknown(name@, value@),
        }
    }
}

/// The corner of a floating window that is pinned to its anchor point.
#[derive(Clone, Copy, Debug, PartialEq, Eq)]
pub enum WindowAnchor {
    NorthWest,
    NorthEast,
    SouthWest,
    SouthEast,
    Absolute,
}

/// The mode of the editor: one of the main modes, or any other by its name.
#[derive(Clone, Debug, PartialEq, Eq)]
pub enum EditorMode {
    Normal,
    Insert,
    Visual,
    Replace,
    CmdLine,
    Unknown(String),
}

/// What an [`EditorMode`] denotes.
pub ghost enum EditorModeView {
    Normal,
    Insert,
    Visual,
    Replace,
    CmdLine,
    Unknown(Seq<char>),
}

impl View for EditorMode {
    type V = EditorModeView;

    open spec fn view(&self) -> EditorModeView {
        match self {
            EditorMode::Normal => EditorModeView::Normal,
            EditorMode::Insert => EditorModeView::Insert,
            EditorMode::Visual => EditorModeView::Visual,
            EditorMode::Replace => EditorModeView::Replace,
            EditorMode::CmdLine => EditorModeView::CmdLine,
            EditorMode::Unknown(name) => EditorModeView::Unknown(name@),
        }
    }
}

/// One UI event of a redraw notification.
#[derive(Clone, Debug, PartialEq)]
#[allow(inconsistent_fields)]
pub enum RedrawEvent {
    /// Set the window title.
    SetTitle { title: String },
    /// The cursor modes, by mode index.
    ModeInfoSet { cursor_modes: Vec<CursorMode> },
    /// An option of the UI changed.
    OptionSet { gui_option: GuiOption },
    /// The editor mode changed. `mode_index` is an index into the modes of
    /// the last [`RedrawEvent::ModeInfoSet`].
    ModeChange { mode: EditorMode, mode_index: u64 },
    /// The mouse was enabled in the current editor mode.
    MouseOn,
    /// The mouse was disabled in the current editor mode.
    MouseOff,
    /// Stop drawing the cursor.
    BusyStart,
    /// Resume drawing the cursor.
    BusyStop,
    /// The end of a redraw batch: the screen is to be shown.
    Flush,
    /// A grid is resized to `width` by `height` cells.
    Resize { grid: u64, width: u64, height: u64 },
    /// The default foreground, background and special colors.
    DefaultColorsSet { colors: Colors },
    /// Highlight `id` is defined by `style`.
    HighlightAttributesDefine { id: u64, style: Style },
    /// A run of cells of one row of a grid is redrawn, from `column_start`
    /// on.
    GridLine { grid: u64, row: u64, column_start: u64, cells: Vec<GridLineCell> },
    /// A grid is cleared.
    Clear { grid: u64 },
    /// A grid will not be used any more.
    Destroy { grid: u64 },
    /// The cursor is on `grid` at `row` and `column`.
    CursorGoto { grid: u64, row: u64, column: u64 },
    /// A region of a grid scrolls by `rows` and `columns`.
    Scroll { grid: u64, top: u64, bottom: u64, left: u64, right: u64, rows: i64, columns: i64 },
    /// The position and size of a window on the default grid.
    WindowPosition { grid: u64, start_row: u64, start_column: u64, width: u64, height: u64 },
    /// A floating window is shown over `anchor_grid`.
    WindowFloatPosition {
        grid: u64,
        anchor: WindowAnchor,
        anchor_grid: u64,
        anchor_row: Number,
        anchor_column: Number,
        mouse_enabled: bool,
        z_index: u64,
        comp_index: Option<u64>,
        screen_row: Option<u64>,
        screen_col: Option<u64>,
    },
    /// A window is shown as a separate top-level window.
    WindowExternalPosition { grid: u64 },
    /// A window is hidden; it can be shown again.
    WindowHide { grid: u64 },
    /// A window is closed.
    WindowClose { grid: u64 },
    /// The message grid is shown at `row` of the default grid.
    MessageSetPosition {
        grid: u64,
        row: u64,
        scrolled: bool,
        separator_character: String,
        z_index: Option<u64>,
        comp_index: Option<u64>,
    },
    /// The part of the buffer that a window shows, and where the cursor is
    /// in the buffer.
    WindowViewport {
        grid: u64,
        top_line: Number,
        bottom_line: Number,
        current_line: Number,
        current_column: Number,
        line_count: Option<Number>,
        scroll_delta: Option<Number>,
    },
    /// The margins of a window that are not part of its viewport.
    WindowViewportMargins { grid: u64, top: u64, bottom: u64, left: u64, right: u64 },
    CommandLineShow {
        content: StyledContent,
        position: u64,
        first_character: String,
        prompt: String,
        indent: u64,
        level: u64,
    },
    CommandLinePosition { position: u64, level: u64 },
    CommandLineSpecialCharacter { character: String, shift: bool, level: u64 },
    CommandLineHide,
    CommandLineBlockShow { lines: Vec<StyledContent> },
    CommandLineBlockAppend { line: StyledContent },
    CommandLineBlockHide,
    MessageShow { kind: MessageKind, content: StyledContent, replace_last: bool },
    MessageClear,
    MessageShowMode { content: StyledContent },
    MessageShowCommand { content: StyledContent },
    MessageRuler { content: StyledContent },
    MessageHistoryShow { entries: Vec<(MessageKind, StyledContent)> },
    Suspend,
    /// Whether the UI redraws. No notification decodes to this event: it is
    /// for the UI's own use.
    SetRedraw(bool),
}

/// What a [`RedrawEvent`] denotes.
#[allow(inconsistent_fields)]
pub ghost enum RedrawEventView {
    SetTitle { title: Seq<char> },
    ModeInfoSet { cursor_modes: Seq<CursorMode> },
    OptionSet { gui_option: GuiOptionView },
    ModeChange { mode: EditorModeView, mode_index: u64 },
    MouseOn,
    MouseOff,
    BusyStart,
    BusyStop,
    Flush,
    Resize { grid: u64, width: u64, height: u64 },
    DefaultColorsSet { colors: Colors },
    HighlightAttributesDefine { id: u64, style: Style },
    GridLine { grid: u64, row: u64, column_start: u64, cells: Seq<GridLineCellView> },
    Clear { grid: u64 },
    Destroy { grid: u64 },
    CursorGoto { grid: u64, row: u64, column: u64 },
    Scroll { grid: u64, top: u64, bottom: u64, left: u64, right: u64, rows: i64, columns: i64 },
    WindowPosition { grid: u64, start_row: u64, start_column: u64, width: u64, height: u64 },
    WindowFloatPosition {
        grid: u64,
        anchor: WindowAnchor,
        anchor_grid: u64,
        anchor_row: Number,
        anchor_column: Number,
        mouse_enabled: bool,
        z_index: u64,
        comp_index: Option<u64>,
        screen_row: Option<u64>,
        screen_col: Option<u64>,
    },
    WindowExternalPosition { grid: u64 },
    WindowHide { grid: u64 },
    WindowClose { grid: u64 },
    MessageSetPosition {
        grid: u64,
        row: u64,
        scrolled: bool,
        separator_character: Seq<char>,
        z_index: Option<u64>,
        comp_index: Option<u64>,
    },
    WindowViewport {
        grid: u64,
        top_line: Number,
        bottom_line: Number,
        current_line: Number,
        current_column: Number,
        line_count: Option<Number>,
        scroll_delta: Option<Number>,
    },
    WindowViewportMargins { grid: u64, top: u64, bottom: u64, left: u64, right: u64 },
    CommandLineShow {
        content: StyledContentView,
        position: u64,
        first_character: Seq<char>,
        prompt: Seq<char>,
        indent: u64,
        level: u64,
    },
    CommandLinePosition { position: u64, level: u64 },
    CommandLineSpecialCharacter { character: Seq<char>, shift: bool, level: u64 },
    CommandLineHide,
    CommandLineBlockShow { lines: Seq<StyledContentView> },
    CommandLineBlockAppend { line: StyledContentView },
    CommandLineBlockHide,
    MessageShow { kind: MessageKind, content: StyledContentView, replace_last: bool },
    MessageClear,
    MessageShowMode { content: StyledContentView },
    MessageShowCommand { content: StyledContentView },
    MessageRuler { content: StyledContentView },
    MessageHistoryShow { entries: Seq<(MessageKind, StyledContentView)> },
    Suspend,
    SetRedraw(bool),
}

impl View for RedrawEvent {
    type V = RedrawEventView;

    open spec fn view(&self) -> RedrawEventView {
        match self {
            RedrawEvent::SetTitle { title } => RedrawEventView::SetTitle { title: title@ },
            RedrawEvent::ModeInfoSet { cursor_modes } => RedrawEventView::ModeInfoSet {
                cursor_modes: cursor_modes@,
            },
            RedrawEvent::OptionSet { gui_option } => RedrawEventView::OptionSet {
                gui_option: gui_option@,
            },
            RedrawEvent::ModeChange { mode, mode_index } => RedrawEventView::ModeChange {
                mode: mode@,
                mode_index: *mode_index,
            },
            RedrawEvent::MouseOn => RedrawEventView::MouseOn,
            RedrawEvent::MouseOff => RedrawEventView::MouseOff,
            RedrawEvent::BusyStart => RedrawEventView::BusyStart,
            RedrawEvent::BusyStop => RedrawEventView::BusyStop,
            RedrawEvent::Flush => RedrawEventView::Flush,
            RedrawEvent::Resize { grid, width, height } => RedrawEventView::Resize {
                grid: *grid,
                width: *width,
                height: *height,
            },
            RedrawEvent::DefaultColorsSet { colors } => RedrawEventView::DefaultColorsSet {
                colors: *colors,
            },
            RedrawEvent::HighlightAttributesDefine {
                id,
                style,
            } => RedrawEventView::HighlightAttributesDefine { id: *id, style: *style },
            RedrawEvent::GridLine { grid, row, column_start, cells } => RedrawEventView::GridLine {
                grid: *grid,
                row: *row,
                column_start: *column_start,
                cells: cell_views_of(cells@),
            },
            RedrawEvent::Clear { grid } => RedrawEventView::Clear { grid: *grid },
            RedrawEvent::Destroy { grid } => RedrawEventView::Destroy { grid: *grid },
            RedrawEvent::CursorGoto { grid, row, column } => RedrawEventView::CursorGoto {
                grid: *grid,
                row: *row,
                column: *column,
            },
            RedrawEvent::Scroll {
                grid,
                top,
                bottom,
                left,
                right,
                rows,
                columns,
            } => RedrawEventView::Scroll {
                grid: *grid,
                top: *top,
                bottom: *bottom,
                left: *left,
                right: *right,
                rows: *rows,
                columns: *columns,
            },
            RedrawEvent::WindowPosition {
                grid,
                start_row,
                start_column,
                width,
                height,
            } => RedrawEventView::WindowPosition {
                grid: *grid,
                start_row: *start_row,
                start_column: *start_column,
                width: *width,
                height: *height,
            },
            RedrawEvent::WindowFloatPosition {
                grid,
                anchor,
                anchor_grid,
                anchor_row,
                anchor_column,
                mouse_enabled,
                z_index,
                comp_index,
                screen_row,
                screen_col,
            } => RedrawEventView::WindowFloatPosition {
                grid: *grid,
                anchor: *anchor,
                anchor_grid: *anchor_grid,
                anchor_row: *anchor_row,
                anchor_column: *anchor_column,
                mouse_enabled: *mouse_enabled,
                z_index: *z_index,
                comp_index: *comp_index,
                screen_row: *screen_row,
                screen_col: *screen_col,
            },
            RedrawEvent::WindowExternalPosition {
                grid,
            } => RedrawEventView::WindowExternalPosition { grid: *grid },
            RedrawEvent::WindowHide { grid } => RedrawEventView::WindowHide { grid: *grid },
            RedrawEvent::WindowClose { grid } => RedrawEventView::WindowClose { grid: *grid },
            RedrawEvent::MessageSetPosition {
                grid,
                row,
                scrolled,
                separator_character,
                z_index,
                comp_index,
            } => RedrawEventView::MessageSetPosition {
                grid: *grid,
                row: *row,
                scrolled: *scrolled,
                separator_character: separator_character@,
                z_index: *z_index,
                comp_index: *comp_index,
            },
            RedrawEvent::WindowViewport {
                grid,
                top_line,
                bottom_line,
                current_line,
                current_column,
                line_count,
                scroll_delta,
            } => RedrawEventView::WindowViewport {
                grid: *grid,
                top_line: *top_line,
                bottom_line: *bottom_line,
                current_line: *current_line,
                current_column: *current_column,
                line_count: *line_count,
                scroll_delta: *scroll_delta,
            },
            RedrawEvent::WindowViewportMargins {
                grid,
                top,
                bottom,
                left,
                right,
            } => RedrawEventView::WindowViewportMargins {
                grid: *grid,
                top: *top,
                bottom: *bottom,
                left: *left,
                right: *right,
            },
            RedrawEvent::CommandLineShow {
                content,
                position,
                first_character,
                prompt,
                indent,
                level,
            } => RedrawEventView::CommandLineShow {
                content: content_view_of(content@),
                position: *position,
                first_character: first_character@,
                prompt: prompt@,
                indent: *indent,
                level: *level,
            },
            RedrawEvent::CommandLinePosition {
                position,
                level,
            } => RedrawEventView::CommandLinePosition { position: *position, level: *level },
            RedrawEvent::CommandLineSpecialCharacter {
                character,
                shift,
                level,
            } => RedrawEventView::CommandLineSpecialCharacter {
                character: character@,
                shift: *shift,
                level: *level,
            },
            RedrawEvent::CommandLineHide => RedrawEventView::CommandLineHide,
            RedrawEvent::CommandLineBlockShow { lines } => RedrawEventView::CommandLineBlockShow {
                lines: content_views_of(lines@),
            },
            RedrawEvent::CommandLineBlockAppend {
                line,
            } => RedrawEventView::CommandLineBlockAppend { line: content_view_of(line@) },
            RedrawEvent::CommandLineBlockHide => RedrawEventView::CommandLineBlockHide,
            RedrawEvent::MessageShow { kind, content, replace_last } => RedrawEventView::MessageShow {
                kind: *kind,
                content: content_view_of(content@),
                replace_last: *replace_last,
            },
            RedrawEvent::MessageClear => RedrawEventView::MessageClear,
            RedrawEvent::MessageShowMode { content } => RedrawEventView::MessageShowMode {
                content: content_view_of(content@),
            },
            RedrawEvent::MessageShowCommand { content } => RedrawEventView::MessageShowCommand {
                content: content_view_of(content@),
            },
            RedrawEvent::MessageRuler { content } => RedrawEventView::MessageRuler {
                content: content_view_of(content@),
            },
            RedrawEvent::MessageHistoryShow { entries } => RedrawEventView::MessageHistoryShow {
                entries: entry_views_of(entries@),
            },
            RedrawEvent::Suspend => RedrawEventView::Suspend,
            RedrawEvent::SetRedraw(on) => RedrawEventView::SetRedraw(*on),
        }
    }
}

/// The views of a sequence of events, in order.
pub open spec fn event_views_of(events: Seq<RedrawEvent>) -> Seq<RedrawEventView> {
    Seq::new(events.len(), |i: int| events[i]@)
}

} // verus!
