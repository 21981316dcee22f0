//! The entry point: from the body of one redraw notification to its events.

use vstd::prelude::*;
use vstd::string::StringExecFns;
use crate::content::{
    cmdline_block_append_event, cmdline_block_show_event, cmdline_pos_event, cmdline_show_event,
    cmdline_special_char_event, msg_history_show_event, msg_ruler_event, msg_show_event,
    msg_showcmd_event, msg_showmode_event, parse_cmdline_block_append, parse_cmdline_block_show,
    parse_cmdline_pos, parse_cmdline_show, parse_cmdline_special_char, parse_msg_history_show,
    parse_msg_ruler, parse_msg_show, parse_msg_showcmd, parse_msg_showmode,
};
use crate::error::{message_of, yields_view, ParseError, ParseErrorView};
use crate::event::{event_views_of, RedrawEvent, RedrawEventView};
use crate::extract::{as_array, as_string, parse_array, parse_string};
use crate::grid::{
    grid_clear_event, grid_cursor_goto_event, grid_cursor_goto_notices, grid_destroy_event,
    grid_line_event, grid_resize_event, grid_scroll_event, parse_grid_clear,
    parse_grid_cursor_goto_noting, parse_grid_destroy, parse_grid_line, parse_grid_resize,
    parse_grid_scroll,
};
use crate::mode::{
    mode_change_event, mode_info_set_event, option_set_event, parse_mode_change,
    parse_mode_info_set, parse_option_set, parse_set_title, set_title_event,
};
use crate::notice::{notice_views_of, Notice, NoticeView};
use crate::render::{debug_text, debug_text_of};
use crate::sequence::{lemma_try_map_fails, lemma_try_map_step, try_map};
use crate::style::{
    default_colors_event, hl_attr_define_event, hl_attr_define_notices, parse_default_colors,
    parse_hl_attr_define_noting,
};
use crate::text::str_equal;
use crate::window::{
    msg_set_pos_event, parse_msg_set_pos, parse_win_close, parse_win_external_pos,
    parse_win_float_pos, parse_win_hide, parse_win_pos, parse_win_viewport,
    parse_win_viewport_margins, win_close_event, win_external_pos_event, win_float_pos_event,
    win_hide_event, win_pos_event, win_viewport_event, win_viewport_margins_event,
};
use crate::wire::{views_of, WireValue, WireView};

verus! {

/// The names of the events that decode to something.
#[derive(Clone, Copy, Debug, PartialEq, Eq)]
pub enum EventName {
    SetTitle,
    ModeInfoSet,
    OptionSet,
    ModeChange,
    MouseOn,
    MouseOff,
    BusyStart,
    BusyStop,
    Flush,
    GridResize,
    DefaultColorsSet,
    HlAttrDefine,
    GridLine,
    GridClear,
    GridDestroy,
    GridCursorGoto,
    GridScroll,
    WinPos,
    WinFloatPos,
    WinExternalPos,
    WinHide,
    WinClose,
    MsgSetPos,
    WinViewport,
    WinViewportMargins,
    CmdlineShow,
    CmdlinePos,
    CmdlineSpecialChar,
    CmdlineHide,
    CmdlineBlockShow,
    CmdlineBlockAppend,
    CmdlineBlockHide,
    MsgShow,
    MsgClear,
    MsgShowmode,
    MsgShowcmd,
    MsgRuler,
    MsgHistoryShow,
    Suspend,
}

/// The event that a wire name names. `set_icon` names none, as every name
/// outside the table: such events are accepted and dropped.
pub open spec fn event_named(name: Seq<char>) -> Option<EventName> {
    if name == "set_title"@ {
        Some(EventName::SetTitle)
    } else if name == "set_icon"@ {
        None
    } else if name == "mode_info_set"@ {
        Some(EventName::ModeInfoSet)
    } else if name == "option_set"@ {
        Some(EventName::OptionSet)
    } else if name == "mode_change"@ {
        Some(EventName::ModeChange)
    } else if name == "mouse_on"@ {
        Some(EventName::MouseOn)
    } else if name == "mouse_off"@ {
        Some(EventName::MouseOff)
    } else if name == "busy_start"@ {
        Some(EventName::BusyStart)
    } else if name == "busy_stop"@ {
        Some(EventName::BusyStop)
    } else if name == "flush"@ {
        Some(EventName::Flush)
    } else if name == "grid_resize"@ {
        Some(EventName::GridResize)
    } else if name == "default_colors_set"@ {
        Some(EventName::DefaultColorsSet)
    } else if name == "hl_attr_define"@ {
        Some(EventName::HlAttrDefine)
    } else if name == "grid_line"@ {
        Some(EventName::GridLine)
    } else if name == "grid_clear"@ {
        Some(EventName::GridClear)
    } else if name == "grid_destroy"@ {
        Some(EventName::GridDestroy)
    } else if name == "grid_cursor_goto"@ {
        Some(EventName::GridCursorGoto)
    } else if name == "grid_scroll"@ {
        Some(EventName::GridScroll)
    } else if name == "win_pos"@ {
        Some(EventName::WinPos)
    } else if name == "win_float_pos"@ {
        Some(EventName::WinFloatPos)
    } else if name == "win_external_pos"@ {
        Some(EventName::WinExternalPos)
    } else if name == "win_hide"@ {
        Some(EventName::WinHide)
    } else if name == "win_close"@ {
        Some(EventName::WinClose)
    } else if name == "msg_set_pos"@ {
        Some(EventName::MsgSetPos)
    } else if name == "win_viewport"@ {
        Some(EventName::WinViewport)
    } else if name == "win_viewport_margins"@ {
        Some(EventName::WinViewportMargins)
    } else if name == "cmdline_show"@ {
        Some(EventName::CmdlineShow)
    } else if name == "cmdline_pos"@ {
        Some(EventName::CmdlinePos)
    } else if name == "cmdline_special_char"@ {
        Some(EventName::CmdlineSpecialChar)
    } else if name == "cmdline_hide"@ {
        Some(EventName::CmdlineHide)
    } else if name == "cmdline_block_show"@ {
        Some(EventName::CmdlineBlockShow)
    } else if name == "cmdline_block_append"@ {
        Some(EventName::CmdlineBlockAppend)
    } else if name == "cmdline_block_hide"@ {
        Some(EventName::CmdlineBlockHide)
    } else if name == "msg_show"@ {
        Some(EventName::MsgShow)
    } else if name == "msg_clear"@ {
        Some(EventName::MsgClear)
    } else if name == "msg_showmode"@ {
        Some(EventName::MsgShowmode)
    } else if name == "msg_showcmd"@ {
        Some(EventName::MsgShowcmd)
    } else if name == "msg_ruler"@ {
        Some(EventName::MsgRuler)
    } else if name == "msg_history_show"@ {
        Some(EventName::MsgHistoryShow)
    } else if name == "suspend"@ {
        Some(EventName::Suspend)
    } else {
        None
    }
}

/// The event of a name that stands for an event without parameters.
pub open spec fn flag_event(name: EventName) -> Option<RedrawEventView> {
    match name {
        EventName::MouseOn => Some(RedrawEventView::MouseOn),
        EventName::MouseOff => Some(RedrawEventView::MouseOff),
        EventName::BusyStart => Some(RedrawEventView::BusyStart),
        EventName::BusyStop => Some(RedrawEventView::BusyStop),
        EventName::Flush => Some(RedrawEventView::Flush),
        EventName::CmdlineHide => Some(RedrawEventView::CommandLineHide),
        EventName::CmdlineBlockHide => Some(RedrawEventView::CommandLineBlockHide),
        EventName::MsgClear => Some(RedrawEventView::MessageClear),
        EventName::Suspend => Some(RedrawEventView::Suspend),
        _ => None,
    }
}

/// What one parameter tuple `args` of the event `name` decodes to.
pub open spec fn event_of(name: EventName, args: Seq<WireView>) -> Result<
    RedrawEventView,
    ParseErrorView,
> {
    match name {
        EventName::SetTitle => set_title_event(args),
        EventName::ModeInfoSet => mode_info_set_event(args),
        EventName::OptionSet => option_set_event(args),
        EventName::ModeChange => mode_change_event(args),
        EventName::MouseOn => Ok(RedrawEventView::MouseOn),
        EventName::MouseOff => Ok(RedrawEventView::MouseOff),
        EventName::BusyStart => Ok(RedrawEventView::BusyStart),
        EventName::BusyStop => Ok(RedrawEventView::BusyStop),
        EventName::Flush => Ok(RedrawEventView::Flush),
        EventName::GridResize => grid_resize_event(args),
        EventName::DefaultColorsSet => default_colors_event(args),
        EventName::HlAttrDefine => hl_attr_define_event(args),
        EventName::GridLine => grid_line_event(args),
        EventName::GridClear => grid_clear_event(args),
        EventName::GridDestroy => grid_destroy_event(args),
        EventName::GridCursorGoto => grid_cursor_goto_event(args),
        EventName::GridScroll => grid_scroll_event(args),
        EventName::WinPos => win_pos_event(args),
        EventName::WinFloatPos => win_float_pos_event(args),
        EventName::WinExternalPos => win_external_pos_event(args),
        EventName::WinHide => win_hide_event(args),
        EventName::WinClose => win_close_event(args),
        EventName::MsgSetPos => msg_set_pos_event(args),
        EventName::WinViewport => win_viewport_event(args),
        EventName::WinViewportMargins => win_viewport_margins_event(args),
        EventName::CmdlineShow => cmdline_show_event(args),
        EventName::CmdlinePos => cmdline_pos_event(args),
        EventName::CmdlineSpecialChar => cmdline_special_char_event(args),
        EventName::CmdlineHide => Ok(RedrawEventView::CommandLineHide),
        EventName::CmdlineBlockShow => cmdline_block_show_event(args),
        EventName::CmdlineBlockAppend => cmdline_block_append_event(args),
        EventName::CmdlineBlockHide => Ok(RedrawEventView::CommandLineBlockHide),
        EventName::MsgShow => msg_show_event(args),
        EventName::MsgClear => Ok(RedrawEventView::MessageClear),
        EventName::MsgShowmode => msg_showmode_event(args),
        EventName::MsgShowcmd => msg_showcmd_event(args),
        EventName::MsgRuler => msg_ruler_event(args),
        EventName::MsgHistoryShow => msg_history_show_event(args),
        EventName::Suspend => Ok(RedrawEventView::Suspend),
    }
}

/// The text of the error that reports the failure `error` of the parameter
/// tuple `args` of the event called `name`: the name, a dump of the tuple,
/// and the message of the failure.
pub open spec fn event_error_text(name: Seq<char>, args: Seq<WireView>, error: ParseErrorView) -> Seq<
    char,
> {
    "for event '"@ + name + "' - "@ + debug_text_of(args) + " - "@ + message_of(error)
}

/// What one element after the name decodes to, under a name that names an
/// event. It has to be an array: the parameter tuple. A failure inside the
/// tuple is reported as a structural error whose text is
/// [`event_error_text`].
pub open spec fn tuple_event(name: Seq<char>, parameters: WireView) -> Result<
    RedrawEventView,
    ParseErrorView,
> {
    match as_array(parameters) {
        Err(e) => Err(e),
        Ok(args) => match event_of(event_named(name)->Some_0, args) {
            Ok(event) => Ok(event),
            Err(e) => Err(ParseErrorView::Format(event_error_text(name, args, e))),
        },
    }
}

/// [`tuple_event`] under a given name, as a function value.
pub open spec fn tuple_decoder(name: Seq<char>) -> spec_fn(WireView) -> Result<
    RedrawEventView,
    ParseErrorView,
> {
    |parameters: WireView| tuple_event(name, parameters)
}

/// The structural error that reports a notification body without a name.
/// Its description shows what is left of the body, which is nothing, as an
/// iterator over it.
pub open spec fn empty_body_error() -> ParseErrorView {
    ParseErrorView::Format("IntoIter("@ + debug_text_of(Seq::empty()) + ")"@)
}

/// What the body of one redraw notification decodes to.
///
/// The body is an array: the name of the event, then one parameter tuple
/// for each occurrence of the event. Under a name that names no event the
/// result is empty, whatever follows the name. Else each tuple decodes to
/// one event, in order, and the first tuple that fails is the failure of
/// the whole body.
pub open spec fn redraw_events(body: WireView) -> Result<Seq<RedrawEventView>, ParseErrorView> {
    match as_array(body) {
        Err(e) => Err(e),
        Ok(contents) => {
            if contents.len() == 0 {
                Err(empty_body_error())
            } else {
                match as_string(contents[0]) {
                    Err(e) => Err(e),
                    Ok(name) => {
                        if event_named(name) is None {
                            Ok(Seq::empty())
                        } else {
                            try_map(contents.skip(1), tuple_decoder(name))
                        }
                    },
                }
            }
        },
    }
}

/// The notices that one parameter tuple `args` of the event `name` gives
/// rise to if it decodes.
pub open spec fn event_notices(name: EventName, args: Seq<WireView>) -> Seq<NoticeView> {
    match name {
        EventName::GridCursorGoto => grid_cursor_goto_notices(args),
        EventName::HlAttrDefine => hl_attr_define_notices(args),
        _ => Seq::empty(),
    }
}

/// The notices that the parameter tuples `tuples` of the event called
/// `name` give rise to, in the order of the tuples.
pub open spec fn tuple_notices(name: Seq<char>, tuples: Seq<WireView>) -> Seq<NoticeView>
    decreases tuples.len(),
{
    if tuples.len() == 0 {
        Seq::empty()
    } else {
        tuple_notices(name, tuples.drop_last()) + event_notices(
            event_named(name)->Some_0,
            as_array(tuples.last())->Ok_0,
        )
    }
}

/// The notices that the body of one redraw notification gives rise to. A
/// body that does not decode gives rise to none: its failure is all that is
/// reported of it.
pub open spec fn redraw_notices(body: WireView) -> Seq<NoticeView> {
    if redraw_events(body) is Err {
        Seq::empty()
    } else {
        let contents = as_array(body)->Ok_0;
        let name = as_string(contents[0])->Ok_0;
        if event_named(name) is None {
            Seq::empty()
        } else {
            tuple_notices(name, contents.skip(1))
        }
    }
}

impl EventName {
    /// The event that a wire name names.
    pub fn from_name(name: &str) -> (named: Option<EventName>)
        ensures
            named == event_named(name@),
    {
        if str_equal(name, "set_title") {
            Some(EventName::SetTitle)
        } else if str_equal(name, "set_icon") {
            None
        } else if str_equal(name, "mode_info_set") {
            Some(EventName::ModeInfoSet)
        } else if str_equal(name, "option_set") {
            Some(EventName::OptionSet)
        } else if str_equal(name, "mode_change") {
            Some(EventName::ModeChange)
        } else if str_equal(name, "mouse_on") {
            Some(EventName::MouseOn)
        } else if str_equal(name, "mouse_off") {
            Some(EventName::MouseOff)
        } else if str_equal(name, "busy_start") {
            Some(EventName::BusyStart)
        } else if str_equal(name, "busy_stop") {
            Some(EventName::BusyStop)
        } else if str_equal(name, "flush") {
            Some(EventName::Flush)
        } else if str_equal(name, "grid_resize") {
            Some(EventName::GridResize)
        } else if str_equal(name, "default_colors_set") {
            Some(EventName::DefaultColorsSet)
        } else if str_equal(name, "hl_attr_define") {
            Some(EventName::HlAttrDefine)
        } else if str_equal(name, "grid_line") {
            Some(EventName::GridLine)
        } else if str_equal(name, "grid_clear") {
            Some(EventName::GridClear)
        } else if str_equal(name, "grid_destroy") {
            Some(EventName::GridDestroy)
        } else if str_equal(name, "grid_cursor_goto") {
            Some(EventName::GridCursorGoto)
        } else if str_equal(name, "grid_scroll") {
            Some(EventName::GridScroll)
        } else if str_equal(name, "win_pos") {
            Some(EventName::WinPos)
        } else if str_equal(name, "win_float_pos") {
            Some(EventName::WinFloatPos)
        } else if str_equal(name, "win_external_pos") {
            Some(EventName::WinExternalPos)
        } else if str_equal(name, "win_hide") {
            Some(EventName::WinHide)
        } else if str_equal(name, "win_close") {
            Some(EventName::WinClose)
        } else if str_equal(name, "msg_set_pos") {
            Some(EventName::MsgSetPos)
        } else if str_equal(name, "win_viewport") {
            Some(EventName::WinViewport)
        } else if str_equal(name, "win_viewport_margins") {
            Some(EventName::WinViewportMargins)
        } else if str_equal(name, "cmdline_show") {
            Some(EventName::CmdlineShow)
        } else if str_equal(name, "cmdline_pos") {
            Some(EventName::CmdlinePos)
        } else if str_equal(name, "cmdline_special_char") {
            Some(EventName::CmdlineSpecialChar)
        } else if str_equal(name, "cmdline_hide") {
            Some(EventName::CmdlineHide)
        } else if str_equal(name, "cmdline_block_show") {
            Some(EventName::CmdlineBlockShow)
        } else if str_equal(name, "cmdline_block_append") {
            Some(EventName::CmdlineBlockAppend)
        } else if str_equal(name, "cmdline_block_hide") {
            Some(EventName::CmdlineBlockHide)
        } else if str_equal(name, "msg_show") {
            Some(EventName::MsgShow)
        } else if str_equal(name, "msg_clear") {
            Some(EventName::MsgClear)
        } else if str_equal(name, "msg_showmode") {
            Some(EventName::MsgShowmode)
        } else if str_equal(name, "msg_showcmd") {
            Some(EventName::MsgShowcmd)
        } else if str_equal(name, "msg_ruler") {
            Some(EventName::MsgRuler)
        } else if str_equal(name, "msg_history_show") {
            Some(EventName::MsgHistoryShow)
        } else if str_equal(name, "suspend") {
            Some(EventName::Suspend)
        } else {
            None
        }
    }
}

/// Decodes one parameter tuple of the event `name`, and appends to
/// `notices` what the tuple gives rise to. If the tuple does not decode,
/// nothing is appended.
pub fn parse_event_noting(
    name: EventName,
    event_parameters: &Vec<WireValue>,
    notices: &mut Vec<Notice>,
) -> (r: Result<RedrawEvent, ParseError>)
    ensures
        yields_view(r, event_of(name, views_of(event_parameters@))),
        r is Ok ==> notice_views_of(final(notices)@) == notice_views_of(old(notices)@)
            + event_notices(name, views_of(event_parameters@)),
        r is Err ==> final(notices)@ == old(notices)@,
{
    match name {
        EventName::SetTitle => parse_set_title(event_parameters),
        EventName::ModeInfoSet => parse_mode_info_set(event_parameters),
        EventName::OptionSet => parse_option_set(event_parameters),
        EventName::ModeChange => parse_mode_change(event_parameters),
        EventName::MouseOn => Ok(RedrawEvent::MouseOn),
        EventName::MouseOff => Ok(RedrawEvent::MouseOff),
        EventName::BusyStart => Ok(RedrawEvent::BusyStart),
        EventName::BusyStop => Ok(RedrawEvent::BusyStop),
        EventName::Flush => Ok(RedrawEvent::Flush),
        EventName::GridResize => parse_grid_resize(event_parameters),
        EventName::DefaultColorsSet => parse_default_colors(event_parameters),
        EventName::HlAttrDefine => {
            let mut found: Vec<Notice> = Vec::new();
            let parsed = parse_hl_attr_define_noting(event_parameters, &mut found)?;
            notices.append(&mut found);
            Ok(parsed)
        },
        EventName::GridLine => parse_grid_line(event_parameters),
        EventName::GridClear => parse_grid_clear(event_parameters),
        EventName::GridDestroy => parse_grid_destroy(event_parameters),
        EventName::GridCursorGoto => {
            let mut found: Vec<Notice> = Vec::new();
            let parsed = parse_grid_cursor_goto_noting(event_parameters, &mut found)?;
            notices.append(&mut found);
            Ok(parsed)
        },
        EventName::GridScroll => parse_grid_scroll(event_parameters),
        EventName::WinPos => parse_win_pos(event_parameters),
        EventName::WinFloatPos => parse_win_float_pos(event_parameters),
        EventName::WinExternalPos => parse_win_external_pos(event_parameters),
        EventName::WinHide => parse_win_hide(event_parameters),
        EventName::WinClose => parse_win_close(event_parameters),
        EventName::MsgSetPos => parse_msg_set_pos(event_parameters),
        EventName::WinViewport => parse_win_viewport(event_parameters),
        EventName::WinViewportMargins => parse_win_viewport_margins(event_parameters),
        EventName::CmdlineShow => parse_cmdline_show(event_parameters),
        EventName::CmdlinePos => parse_cmdline_pos(event_parameters),
        EventName::CmdlineSpecialChar => parse_cmdline_special_char(event_parameters),
        EventName::CmdlineHide => Ok(RedrawEvent::CommandLineHide),
        EventName::CmdlineBlockShow => parse_cmdline_block_show(event_parameters),
        EventName::CmdlineBlockAppend => parse_cmdline_block_append(event_parameters),
        EventName::CmdlineBlockHide => Ok(RedrawEvent::CommandLineBlockHide),
        EventName::MsgShow => parse_msg_show(event_parameters),
        EventName::MsgClear => Ok(RedrawEvent::MessageClear),
        EventName::MsgShowmode => parse_msg_showmode(event_parameters),
        EventName::MsgShowcmd => parse_msg_showcmd(event_parameters),
        EventName::MsgRuler => parse_msg_ruler(event_parameters),
        EventName::MsgHistoryShow => parse_msg_history_show(event_parameters),
        EventName::Suspend => Ok(RedrawEvent::Suspend),
    }
}

/// Decodes one parameter tuple of the event `name`.
pub fn parse_event(name: EventName, event_parameters: &Vec<WireValue>) -> (r: Result<
    RedrawEvent,
    ParseError,
>)
    ensures
        yields_view(r, event_of(name, views_of(event_parameters@))),
{
    let mut notices: Vec<Notice> = Vec::new();
    parse_event_noting(name, event_parameters, &mut notices)
}

/// The error that reports the failure `error` of the parameter tuple
/// `event_parameters` of the event called `event_name`.
pub fn event_error(event_name: &str, event_parameters: &Vec<WireValue>, error: &ParseError) -> (wrapped:
    ParseError)
    ensures
        wrapped@ == ParseErrorView::Format(
            event_error_text(event_name@, views_of(event_parameters@), error@),
        ),
{
    let mut text = String::from_str("for event '");
    text.append(event_name);
    text.append("' - ");
    let dump = debug_text(event_parameters);
    text.append(dump.as_str());
    text.append(" - ");
    let message = error.message();
    text.append(message.as_str());
    ParseError::Format(text)
}

/// Decodes the body of one redraw notification into its events, and
/// appends to `notices` what the body gives rise to. If the body does not
/// decode, nothing is appended.
pub fn parse_redraw_event_noting(event_value: WireValue, notices: &mut Vec<Notice>) -> (r: Result<
    Vec<RedrawEvent>,
    ParseError,
>)
    ensures
        r matches Ok(events) ==> redraw_events(event_value@) == Ok::<
            Seq<RedrawEventView>,
            ParseErrorView,
        >(event_views_of(events@)),
        r matches Err(e) ==> redraw_events(event_value@) == Err::<
            Seq<RedrawEventView>,
            ParseErrorView,
        >(e@),
        notice_views_of(final(notices)@) == notice_views_of(old(notices)@) + redraw_notices(
            event_value@,
        ),
        r is Err ==> final(notices)@ == old(notices)@,
{
    let event_contents = parse_array(&event_value)?;
    if event_contents.len() == 0 {
        let mut text = String::from_str("IntoIter(");
        let dump = debug_text(event_contents);
        text.append(dump.as_str());
        text.append(")");
        proof {
            assert(views_of(event_contents@) =~= Seq::empty());
        }
        return Err(ParseError::Format(text));
    }
    let event_name = parse_string(&event_contents[0])?;
    let mut parsed_events: Vec<RedrawEvent> = Vec::new();
    let name = match EventName::from_name(event_name.as_str()) {
        Some(name) => name,
        None => {
            proof {
                assert(event_views_of(parsed_events@) =~= Seq::empty());
            }
            return Ok(parsed_events);
        },
    };
    let mut found: Vec<Notice> = Vec::new();
    let ghost contents = views_of(event_contents@);
    let ghost tuples = contents.skip(1);
    let ghost each = tuple_decoder(event_name@);
    let mut i: usize = 1;
    proof {
        assert(event_views_of(parsed_events@) =~= Seq::empty());
    }
    while i < event_contents.len()
        invariant
            1 <= i <= event_contents.len(),
            contents == views_of(event_contents@),
            tuples == contents.skip(1),
            each == tuple_decoder(event_name@),
            as_array(event_value@) == Ok::<Seq<WireView>, ParseErrorView>(contents),
            as_string(contents[0]) == Ok::<Seq<char>, ParseErrorView>(event_name@),
            event_named(event_name@) == Some(name),
            try_map(tuples.take(i - 1), each) == Ok::<Seq<RedrawEventView>, ParseErrorView>(
                event_views_of(parsed_events@),
            ),
            notice_views_of(found@) == tuple_notices(event_name@, tuples.take(i - 1)),
            notices@ == old(notices)@,
        decreases event_contents.len() - i,
    {
        proof {
            lemma_try_map_step(tuples, each, i - 1);
            assert(tuples.take(i as int).drop_last() =~= tuples.take(i - 1));
        }
        let event_parameters = match parse_array(&event_contents[i]) {
            Ok(event_parameters) => event_parameters,
            Err(e) => {
                proof {
                    lemma_try_map_fails(tuples, each, i as int);
                }
                return Err(e);
            },
        };
        match parse_event_noting(name, event_parameters, &mut found) {
            Ok(parsed_event) => {
                proof {
                    assert(event_views_of(parsed_events@.push(parsed_event)) =~= event_views_of(
                        parsed_events@,
                    ).push(parsed_event@));
                }
                parsed_events.push(parsed_event);
            },
            Err(parser_error) => {
                proof {
                    lemma_try_map_fails(tuples, each, i as int);
                }
                return Err(event_error(event_name.as_str(), event_parameters, &parser_error));
            },
        }
        i += 1;
    }
    proof {
        assert(tuples.take(i - 1) =~= tuples);
    }
    notices.append(&mut found);
    Ok(parsed_events)
}

/// Decodes the body of one redraw notification into its events.
pub fn parse_redraw_event(event_value: WireValue) -> (r: Result<Vec<RedrawEvent>, ParseError>)
    ensures
        r matches Ok(events) ==> redraw_events(event_value@) == Ok::<
            Seq<RedrawEventView>,
            ParseErrorView,
        >(event_views_of(events@)),
        r matches Err(e) ==> redraw_events(event_value@) == Err::<
            Seq<RedrawEventView>,
            ParseErrorView,
        >(e@),
{
    let mut notices: Vec<Notice> = Vec::new();
    parse_redraw_event_noting(event_value, &mut notices)
}

} // verus!
