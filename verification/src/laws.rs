//! What holds of the decoder as a whole.

use vstd::prelude::*;
use crate::dispatch::{
    event_error_text, event_named, event_of, flag_event, redraw_events, tuple_decoder,
    tuple_event, EventName,
};
use crate::error::{message_of, message_prefix, ParseErrorView};
use crate::event::{GridLineCellView, RedrawEventView};
use crate::extract::{as_string, as_u64, shape_error, slot_at};
use crate::grid::{as_grid_line_cell, as_grid_line_cells, grid_line_cell_decoder, grid_line_event};
use crate::sequence::{lemma_try_map_err, lemma_try_map_ok, try_map};
use crate::wire::WireView;

verus! {

/// The body of a notification: the name of the event, then its parameter
/// tuples.
pub open spec fn body_of(name: Seq<char>, tuples: Seq<WireView>) -> WireView {
    WireView::Array(seq![WireView::String(name)] + tuples)
}

/// The table of names: each wire name of the protocol names its event, and
/// `set_icon` names none.
pub proof fn lemma_event_names()
    ensures
        event_named("set_title"@) == Some(EventName::SetTitle),
        event_named("set_icon"@) is None,
        event_named("mode_info_set"@) == Some(EventName::ModeInfoSet),
        event_named("option_set"@) == Some(EventName::OptionSet),
        event_named("mode_change"@) == Some(EventName::ModeChange),
        event_named("mouse_on"@) == Some(EventName::MouseOn),
        event_named("mouse_off"@) == Some(EventName::MouseOff),
        event_named("busy_start"@) == Some(EventName::BusyStart),
        event_named("busy_stop"@) == Some(EventName::BusyStop),
        event_named("flush"@) == Some(EventName::Flush),
        event_named("grid_resize"@) == Some(EventName::GridResize),
        event_named("default_colors_set"@) == Some(EventName::DefaultColorsSet),
        event_named("hl_attr_define"@) == Some(EventName::HlAttrDefine),
        event_named("grid_line"@) == Some(EventName::GridLine),
        event_named("grid_clear"@) == Some(EventName::GridClear),
        event_named("grid_destroy"@) == Some(EventName::GridDestroy),
        event_named("grid_cursor_goto"@) == Some(EventName::GridCursorGoto),
        event_named("grid_scroll"@) == Some(EventName::GridScroll),
        event_named("win_pos"@) == Some(EventName::WinPos),
        event_named("win_float_pos"@) == Some(EventName::WinFloatPos),
        event_named("win_external_pos"@) == Some(EventName::WinExternalPos),
        event_named("win_hide"@) == Some(EventName::WinHide),
        event_named("win_close"@) == Some(EventName::WinClose),
        event_named("msg_set_pos"@) == Some(EventName::MsgSetPos),
        event_named("win_viewport"@) == Some(EventName::WinViewport),
        event_named("win_viewport_margins"@) == Some(EventName::WinViewportMargins),
        event_named("cmdline_show"@) == Some(EventName::CmdlineShow),
        event_named("cmdline_pos"@) == Some(EventName::CmdlinePos),
        event_named("cmdline_special_char"@) == Some(EventName::CmdlineSpecialChar),
        event_named("cmdline_hide"@) == Some(EventName::CmdlineHide),
        event_named("cmdline_block_show"@) == Some(EventName::CmdlineBlockShow),
        event_named("cmdline_block_append"@) == Some(EventName::CmdlineBlockAppend),
        event_named("cmdline_block_hide"@) == Some(EventName::CmdlineBlockHide),
        event_named("msg_show"@) == Some(EventName::MsgShow),
        event_named("msg_clear"@) == Some(EventName::MsgClear),
        event_named("msg_showmode"@) == Some(EventName::MsgShowmode),
        event_named("msg_showcmd"@) == Some(EventName::MsgShowcmd),
        event_named("msg_ruler"@) == Some(EventName::MsgRuler),
        event_named("msg_history_show"@) == Some(EventName::MsgHistoryShow),
        event_named("suspend"@) == Some(EventName::Suspend),
{
    reveal_strlit("set_title");
    reveal_strlit("set_icon");
    reveal_strlit("mode_info_set");
    reveal_strlit("option_set");
    reveal_strlit("mode_change");
    reveal_strlit("mouse_on");
    reveal_strlit("mouse_off");
    reveal_strlit("busy_start");
    reveal_strlit("busy_stop");
    reveal_strlit("flush");
    reveal_strlit("grid_resize");
    reveal_strlit("default_colors_set");
    reveal_strlit("hl_attr_define");
    reveal_strlit("grid_line");
    reveal_strlit("grid_clear");
    reveal_strlit("grid_destroy");
    reveal_strlit("grid_cursor_goto");
    reveal_strlit("grid_scroll");
    reveal_strlit("win_pos");
    reveal_strlit("win_float_pos");
    reveal_strlit("win_external_pos");
    reveal_strlit("win_hide");
    reveal_strlit("win_close");
    reveal_strlit("msg_set_pos");
    reveal_strlit("win_viewport");
    reveal_strlit("win_viewport_margins");
    reveal_strlit("cmdline_show");
    reveal_strlit("cmdline_pos");
    reveal_strlit("cmdline_special_char");
    reveal_strlit("cmdline_hide");
    reveal_strlit("cmdline_block_show");
    reveal_strlit("cmdline_block_append");
    reveal_strlit("cmdline_block_hide");
    reveal_strlit("msg_show");
    reveal_strlit("msg_clear");
    reveal_strlit("msg_showmode");
    reveal_strlit("msg_showcmd");
    reveal_strlit("msg_ruler");
    reveal_strlit("msg_history_show");
    reveal_strlit("suspend");
    assert("set_title"@.len() == 9 && "set_title"@[4] == 't' && "set_title"@[8] == 'e');
    assert("set_icon"@.len() == 8 && "set_icon"@[4] == 'i');
    assert("mode_info_set"@.len() == 13 && "mode_info_set"@[4] == '_' && "mode_info_set"@[8] == 'o');
    assert("option_set"@.len() == 10 && "option_set"@[4] == 'o' && "option_set"@[8] == 'e');
    assert("mode_change"@.len() == 11 && "mode_change"@[4] == '_' && "mode_change"@[8] == 'n');
    assert("mouse_on"@.len() == 8 && "mouse_on"@[4] == 'e');
    assert("mouse_off"@.len() == 9 && "mouse_off"@[4] == 'e' && "mouse_off"@[8] == 'f');
    assert("busy_start"@.len() == 10 && "busy_start"@[4] == '_' && "busy_start"@[8] == 'r');
    assert("busy_stop"@.len() == 9 && "busy_stop"@[4] == '_' && "busy_stop"@[8] == 'p');
    assert("flush"@.len() == 5 && "flush"@[4] == 'h');
    assert("grid_resize"@.len() == 11 && "grid_resize"@[4] == '_' && "grid_resize"@[8] == 'i');
    assert("default_colors_set"@.len() == 18 && "default_colors_set"@[4] == 'u' && "default_colors_set"@[8] == 'c' && "default_colors_set"@[14] == '_');
    assert("hl_attr_define"@.len() == 14 && "hl_attr_define"@[4] == 't' && "hl_attr_define"@[8] == 'd');
    assert("grid_line"@.len() == 9 && "grid_line"@[4] == '_' && "grid_line"@[8] == 'e');
    assert("grid_clear"@.len() == 10 && "grid_clear"@[4] == '_' && "grid_clear"@[8] == 'a');
    assert("grid_destroy"@.len() == 12 && "grid_destroy"@[4] == '_' && "grid_destroy"@[8] == 't');
    assert("grid_cursor_goto"@.len() == 16 && "grid_cursor_goto"@[4] == '_' && "grid_cursor_goto"@[8] == 's' && "grid_cursor_goto"@[14] == 't');
    assert("grid_scroll"@.len() == 11 && "grid_scroll"@[4] == '_' && "grid_scroll"@[8] == 'o');
    assert("win_pos"@.len() == 7 && "win_pos"@[4] == 'p');
    assert("win_float_pos"@.len() == 13 && "win_float_pos"@[4] == 'f' && "win_float_pos"@[8] == 't');
    assert("win_external_pos"@.len() == 16 && "win_external_pos"@[4] == 'e' && "win_external_pos"@[8] == 'r' && "win_external_pos"@[14] == 'o');
    assert("win_hide"@.len() == 8 && "win_hide"@[4] == 'h');
    assert("win_close"@.len() == 9 && "win_close"@[4] == 'c' && "win_close"@[8] == 'e');
    assert("msg_set_pos"@.len() == 11 && "msg_set_pos"@[4] == 's' && "msg_set_pos"@[8] == 'p');
    assert("win_viewport"@.len() == 12 && "win_viewport"@[4] == 'v' && "win_viewport"@[8] == 'p');
    assert("win_viewport_margins"@.len() == 20 && "win_viewport_margins"@[4] == 'v' && "win_viewport_margins"@[8] == 'p' && "win_viewport_margins"@[14] == 'a');
    assert("cmdline_show"@.len() == 12 && "cmdline_show"@[4] == 'i' && "cmdline_show"@[8] == 's');
    assert("cmdline_pos"@.len() == 11 && "cmdline_pos"@[4] == 'i' && "cmdline_pos"@[8] == 'p');
    assert("cmdline_special_char"@.len() == 20 && "cmdline_special_char"@[4] == 'i' && "cmdline_special_char"@[8] == 's' && "cmdline_special_char"@[14] == 'l');
    assert("cmdline_hide"@.len() == 12 && "cmdline_hide"@[4] == 'i' && "cmdline_hide"@[8] == 'h');
    assert("cmdline_block_show"@.len() == 18 && "cmdline_block_show"@[4] == 'i' && "cmdline_block_show"@[8] == 'b' && "cmdline_block_show"@[14] == 's');
    assert("cmdline_block_append"@.len() == 20 && "cmdline_block_append"@[4] == 'i' && "cmdline_block_append"@[8] == 'b' && "cmdline_block_append"@[14] == 'a');
    assert("cmdline_block_hide"@.len() == 18 && "cmdline_block_hide"@[4] == 'i' && "cmdline_block_hide"@[8] == 'b' && "cmdline_block_hide"@[14] == 'h');
    assert("msg_show"@.len() == 8 && "msg_show"@[4] == 's');
    assert("msg_clear"@.len() == 9 && "msg_clear"@[4] == 'c' && "msg_clear"@[8] == 'r');
    assert("msg_showmode"@.len() == 12 && "msg_showmode"@[4] == 's' && "msg_showmode"@[8] == 'm');
    assert("msg_showcmd"@.len() == 11 && "msg_showcmd"@[4] == 's' && "msg_showcmd"@[8] == 'c');
    assert("msg_ruler"@.len() == 9 && "msg_ruler"@[4] == 'r' && "msg_ruler"@[8] == 'r');
    assert("msg_history_show"@.len() == 16 && "msg_history_show"@[4] == 'h' && "msg_history_show"@[8] == 'o' && "msg_history_show"@[14] == 'o');
    assert("suspend"@.len() == 7 && "suspend"@[4] == 'e');
}

/// An event without parameters, sent `n` times, decodes to `n` copies of
/// itself: under the name of such an event, a body with `n` parameter
/// tuples, empty or not, decodes to that event `n` times.
pub proof fn lemma_flag_event_repeats(name: Seq<char>, tuples: Seq<WireView>, event: RedrawEventView)
    requires
        event_named(name) matches Some(kind) && flag_event(kind) == Some(event),
        forall|i: int| 0 <= i < tuples.len() ==> (#[trigger] tuples[i]) is Array,
    ensures
        redraw_events(body_of(name, tuples)) == Ok::<Seq<RedrawEventView>, ParseErrorView>(
            Seq::new(tuples.len(), |i: int| event),
        ),
{
    let contents = seq![WireView::String(name)] + tuples;
    assert(contents.skip(1) =~= tuples);
    let each = tuple_decoder(name);
    assert forall|i: int| 0 <= i < tuples.len() implies (#[trigger] each(tuples[i]))
        == Ok::<RedrawEventView, ParseErrorView>(event) by {}
    lemma_try_map_ok(tuples, each);
    assert(try_map(tuples, each)->Ok_0 =~= Seq::new(tuples.len(), |i: int| event));
}

/// How many parameters an event requires.
pub open spec fn required_count(name: EventName) -> nat {
    match name {
        EventName::SetTitle => 1,
        EventName::ModeInfoSet => 2,
        EventName::OptionSet => 2,
        EventName::ModeChange => 2,
        EventName::GridResize => 3,
        EventName::DefaultColorsSet => 5,
        EventName::HlAttrDefine => 4,
        EventName::GridLine => 4,
        EventName::GridClear => 1,
        EventName::GridDestroy => 1,
        EventName::GridCursorGoto => 3,
        EventName::GridScroll => 7,
        EventName::WinPos => 6,
        EventName::WinFloatPos => 8,
        EventName::WinExternalPos => 2,
        EventName::WinHide => 1,
        EventName::WinClose => 1,
        EventName::MsgSetPos => 4,
        EventName::WinViewport => 6,
        EventName::WinViewportMargins => 6,
        EventName::CmdlineShow => 6,
        EventName::CmdlinePos => 2,
        EventName::CmdlineSpecialChar => 3,
        EventName::CmdlineBlockShow => 1,
        EventName::CmdlineBlockAppend => 1,
        EventName::MsgShow => 3,
        EventName::MsgShowmode => 1,
        EventName::MsgShowcmd => 1,
        EventName::MsgRuler => 1,
        EventName::MsgHistoryShow => 1,
        _ => 0,
    }
}

/// How many optional parameters an event knows after the required ones.
pub open spec fn optional_count(name: EventName) -> nat {
    match name {
        EventName::WinFloatPos => 3,
        EventName::MsgSetPos => 2,
        EventName::WinViewport => 2,
        _ => 0,
    }
}

/// The event with its optional fields absent.
pub open spec fn without_optional_fields(event: RedrawEventView) -> RedrawEventView {
    match event {
        RedrawEventView::WindowFloatPosition {
            grid,
            anchor,
            anchor_grid,
            anchor_row,
            anchor_column,
            mouse_enabled,
            z_index,
            comp_index,
            screen_row,
            screen_col,
        } => RedrawEventView::WindowFloatPosition {
            grid,
            anchor,
            anchor_grid,
            anchor_row,
            anchor_column,
            mouse_enabled,
            z_index,
            comp_index: None,
            screen_row: None,
            screen_col: None,
        },
        RedrawEventView::MessageSetPosition {
            grid,
            row,
            scrolled,
            separator_character,
            z_index,
            comp_index,
        } => RedrawEventView::MessageSetPosition {
            grid,
            row,
            scrolled,
            separator_character,
            z_index: None,
            comp_index: None,
        },
        RedrawEventView::WindowViewport {
            grid,
            top_line,
            bottom_line,
            current_line,
            current_column,
            line_count,
            scroll_delta,
        } => RedrawEventView::WindowViewport {
            grid,
            top_line,
            bottom_line,
            current_line,
            current_column,
            line_count: None,
            scroll_delta: None,
        },
        _ => event,
    }
}

/// A tuple shorter than the event requires is a structural error that
/// reports the tuple.
pub proof fn lemma_short_tuple_fails(name: EventName, args: Seq<WireView>)
    requires
        args.len() < required_count(name),
    ensures
        event_of(name, args) == Err::<RedrawEventView, ParseErrorView>(shape_error(args)),
{
}

/// Values past the last known parameter do not count: a tuple that has all
/// the required and optional parameters of its event decodes to the same
/// result with any further values appended.
pub proof fn lemma_extra_values_ignored(name: EventName, args: Seq<WireView>, extra: Seq<WireView>)
    requires
        args.len() >= required_count(name) + optional_count(name),
    ensures
        event_of(name, args + extra) == event_of(name, args),
{
    let longer = args + extra;
    assert forall|i: int| 0 <= i < args.len() implies longer[i] == args[i] by {}
    assert forall|i: int| 0 <= i < args.len() implies slot_at(longer, i) == slot_at(args, i) by {}
}

/// The required parameters are enough: if a tuple decodes, then the tuple
/// cut down to the required parameters of its event decodes too, to the
/// same event with its optional fields absent.
pub proof fn lemma_required_values_suffice(name: EventName, args: Seq<WireView>)
    requires
        event_of(name, args) is Ok,
    ensures
        args.len() >= required_count(name),
        event_of(name, args.take(required_count(name) as int)) == Ok::<
            RedrawEventView,
            ParseErrorView,
        >(without_optional_fields(event_of(name, args)->Ok_0)),
{
    let required = required_count(name) as int;
    if args.len() >= required {
        let cut = args.take(required);
        assert forall|i: int| 0 <= i < required implies cut[i] == args[i] by {}
    }
}

/// A name outside the table is not an error: whatever follows it, the body
/// decodes to no event.
pub proof fn lemma_unknown_name_gives_nothing(contents: Seq<WireView>)
    requires
        contents.len() > 0,
        as_string(contents[0]) matches Ok(name) && event_named(name) is None,
    ensures
        redraw_events(WireView::Array(contents)) == Ok::<Seq<RedrawEventView>, ParseErrorView>(
            Seq::empty(),
        ),
{
}

/// The events of a body follow its parameter tuples: if a body under the
/// name of an event decodes, it decodes to one event for each tuple, in the
/// order of the tuples.
pub proof fn lemma_events_follow_tuples(name: Seq<char>, tuples: Seq<WireView>)
    requires
        event_named(name) is Some,
        redraw_events(body_of(name, tuples)) is Ok,
    ensures
        redraw_events(body_of(name, tuples))->Ok_0.len() == tuples.len(),
        forall|i: int|
            0 <= i < tuples.len() ==> tuple_event(name, tuples[i]) == Ok::<
                RedrawEventView,
                ParseErrorView,
            >(#[trigger] redraw_events(body_of(name, tuples))->Ok_0[i]),
{
    let contents = seq![WireView::String(name)] + tuples;
    assert(contents.skip(1) =~= tuples);
    lemma_try_map_ok(tuples, tuple_decoder(name));
}

/// The failure of a body is the failure of its first tuple that does not
/// decode. An element that is no tuple is reported as it is, by the error of
/// its kind. A failure inside a tuple is reported under the name of the
/// event: the error is structural, and its text is made of the name, a dump
/// of the tuple and the message of the failure.
pub proof fn lemma_first_failure_is_reported(name: Seq<char>, tuples: Seq<WireView>)
    requires
        event_named(name) is Some,
        redraw_events(body_of(name, tuples)) is Err,
    ensures
        exists|j: int|
            0 <= j < tuples.len() && (forall|i: int|
                0 <= i < j ==> (#[trigger] tuple_event(name, tuples[i])) is Ok) && tuple_event(
                name,
                #[trigger] tuples[j],
            ) == Err::<RedrawEventView, ParseErrorView>(redraw_events(body_of(name, tuples))->Err_0)
                && (tuples[j] !is Array ==> redraw_events(body_of(name, tuples))->Err_0
                == ParseErrorView::Array(tuples[j])) && (tuples[j] matches WireView::Array(args)
                ==> event_of(event_named(name)->Some_0, args) is Err && redraw_events(
                body_of(name, tuples),
            )->Err_0 == ParseErrorView::Format(
                event_error_text(
                    name,
                    args,
                    event_of(event_named(name)->Some_0, args)->Err_0,
                ),
            )),
{
    let contents = seq![WireView::String(name)] + tuples;
    assert(contents.skip(1) =~= tuples);
    let each = tuple_decoder(name);
    lemma_try_map_err(tuples, each);
    let error = try_map(tuples, each)->Err_0;
    let j = choose|j: int|
        0 <= j < tuples.len() && (#[trigger] each(tuples[j])) == Err::<
            RedrawEventView,
            ParseErrorView,
        >(error) && (forall|i: int| 0 <= i < j ==> (#[trigger] each(tuples[i])) is Ok);
    assert forall|i: int| 0 <= i < j implies (#[trigger] tuple_event(name, tuples[i])) is Ok by {
        assert(each(tuples[i]) is Ok);
    }
}

/// The text that reports a failure inside a tuple opens with the name of
/// the event and closes with the message of the failure, which opens with
/// the phrase of its kind.
pub proof fn lemma_event_error_text_shape(name: Seq<char>, args: Seq<WireView>, error: ParseErrorView)
    ensures
        ("for event '"@ + name).is_prefix_of(event_error_text(name, args, error)),
        message_of(error).is_suffix_of(event_error_text(name, args, error)),
        message_prefix(error).is_prefix_of(message_of(error)),
{
}

/// The phrase that opens a message tells the kind of the error: errors of
/// two kinds never open with the same phrase.
pub proof fn lemma_message_prefix_tells_kind(a: ParseErrorView, b: ParseErrorView)
    requires
        message_prefix(a) == message_prefix(b),
    ensures
        a is Array <==> b is Array,
        a is Mapping <==> b is Mapping,
        a is String <==> b is String,
        a is U64 <==> b is U64,
        a is I64 <==> b is I64,
        a is F64 <==> b is F64,
        a is Bool <==> b is Bool,
        a is WindowAnchor <==> b is WindowAnchor,
        a is Format <==> b is Format,
{
    reveal_strlit("invalid array format ");
    reveal_strlit("invalid map format ");
    reveal_strlit("invalid string format ");
    reveal_strlit("invalid u64 format ");
    reveal_strlit("invalid i64 format ");
    reveal_strlit("invalid f64 format ");
    reveal_strlit("invalid bool format ");
    reveal_strlit("invalid window anchor format ");
    reveal_strlit("invalid event format ");
    let array = "invalid array format "@;
    let map = "invalid map format "@;
    let string = "invalid string format "@;
    let unsigned = "invalid u64 format "@;
    let signed = "invalid i64 format "@;
    let float = "invalid f64 format "@;
    let boolean = "invalid bool format "@;
    let anchor = "invalid window anchor format "@;
    let event = "invalid event format "@;
    assert(array.len() == 21 && map.len() == 19 && string.len() == 22 && unsigned.len() == 19
        && signed.len() == 19 && float.len() == 19 && boolean.len() == 20 && anchor.len() == 29
        && event.len() == 21);
    assert(array[8] == 'a' && event[8] == 'e');
    assert(map[8] == 'm' && unsigned[8] == 'u' && signed[8] == 'i' && float[8] == 'f');
}

/// A grid line keeps its cells: if the event decodes, it has one cell for
/// each cell tuple, in the order of the tuples; the text of a cell is the
/// first value of its tuple; the cell has a highlight id exactly if the
/// tuple has a second value, and a repeat count exactly if it has a third.
pub proof fn lemma_grid_line_keeps_cells(args: Seq<WireView>)
    requires
        grid_line_event(args) is Ok,
    ensures
        args.len() >= 4,
        args[3] is Array,
        grid_line_event(args)->Ok_0 is GridLine,
        ({
            let tuples = args[3]->Array_0;
            let cells = grid_line_event(args)->Ok_0->GridLine_cells;
            &&& cells.len() == tuples.len()
            &&& forall|i: int|
                0 <= i < tuples.len() ==> {
                    &&& (#[trigger] tuples[i]) is Array
                    &&& tuples[i]->Array_0.len() >= 1
                    &&& as_string(tuples[i]->Array_0[0]) == Ok::<Seq<char>, ParseErrorView>(
                        cells[i].text,
                    )
                    &&& cells[i].highlight_id is Some <==> tuples[i]->Array_0.len() >= 2
                    &&& cells[i].highlight_id matches Some(id) ==> as_u64(tuples[i]->Array_0[1])
                        == Ok::<u64, ParseErrorView>(id)
                    &&& cells[i].repeat is Some <==> tuples[i]->Array_0.len() >= 3
                    &&& cells[i].repeat matches Some(count) ==> as_u64(tuples[i]->Array_0[2])
                        == Ok::<u64, ParseErrorView>(count)
                }
        }),
{
    lemma_try_map_ok(args[3]->Array_0, grid_line_cell_decoder());
}

/// No notification decodes to the event that is kept for the UI's own use.
pub proof fn lemma_set_redraw_is_never_decoded(name: EventName, args: Seq<WireView>)
    requires
        event_of(name, args) is Ok,
    ensures
        event_of(name, args)->Ok_0 !is SetRedraw,
{
}

} // verus!
