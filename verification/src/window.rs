//! The events that place windows and the message grid.

use vstd::prelude::*;
use crate::error::{yields, yields_view, ParseError, ParseErrorView};
use crate::event::{RedrawEvent, RedrawEventView, WindowAnchor};
use crate::extract::{
    as_bool, as_number, as_optional_number, as_optional_u64, as_string, as_u64, extract_values,
    extract_values_with_optional, parse_bool, parse_f64, parse_optional_f64, parse_optional_u64,
    parse_string, parse_u64, shape_error, slot_at,
};
use crate::text::str_equal;
use crate::wire::{views_of, WireValue, WireView};

verus! {

/// `win_pos`: the grid, the window, where the window starts on the default
/// grid, and its size. The window handle has to be there and is not read:
/// the grid identifies the window.
pub open spec fn win_pos_event(args: Seq<WireView>) -> Result<RedrawEventView, ParseErrorView> {
    let grid = as_u64(args[0]);
    let start_row = as_u64(args[2]);
    let start_column = as_u64(args[3]);
    let width = as_u64(args[4]);
    let height = as_u64(args[5]);
    if args.len() < 6 {
        Err(shape_error(args))
    } else if grid is Err {
        Err(grid->Err_0)
    } else if start_row is Err {
        Err(start_row->Err_0)
    } else if start_column is Err {
        Err(start_column->Err_0)
    } else if width is Err {
        Err(width->Err_0)
    } else if height is Err {
        Err(height->Err_0)
    } else {
        Ok(
            RedrawEventView::WindowPosition {
                grid: grid->Ok_0,
                start_row: start_row->Ok_0,
                start_column: start_column->Ok_0,
                width: width->Ok_0,
                height: height->Ok_0,
            },
        )
    }
}

/// Decodes one `win_pos` tuple.
pub fn parse_win_pos(win_pos_arguments: &Vec<WireValue>) -> (r: Result<RedrawEvent, ParseError>)
    ensures
        yields_view(r, win_pos_event(views_of(win_pos_arguments@))),
{
    let slots = extract_values(win_pos_arguments, 6)?;
    let grid = parse_u64(slots[0])?;
    let start_row = parse_u64(slots[2])?;
    let start_column = parse_u64(slots[3])?;
    let width = parse_u64(slots[4])?;
    let height = parse_u64(slots[5])?;
    Ok(RedrawEvent::WindowPosition { grid, start_row, start_column, width, height })
}

/// The anchor that a value names: a string, one of `NW`, `NE`, `SW` and
/// `SE`. Any other string is an error of its own kind, which holds the
/// string.
pub open spec fn as_window_anchor(value: WireView) -> Result<WindowAnchor, ParseErrorView> {
    match as_string(value) {
        Err(e) => Err(e),
        Ok(name) => {
            if name == "NW"@ {
                Ok(WindowAnchor::NorthWest)
            } else if name == "NE"@ {
                Ok(WindowAnchor::NorthEast)
            } else if name == "SW"@ {
                Ok(WindowAnchor::SouthWest)
            } else if name == "SE"@ {
                Ok(WindowAnchor::SouthEast)
            } else {
                Err(ParseErrorView::WindowAnchor(WireView::String(name)))
            }
        },
    }
}

/// Reads the anchor of a floating window.
pub fn parse_window_anchor(value: &WireValue) -> (r: Result<WindowAnchor, ParseError>)
    ensures
        yields(r, as_window_anchor(value@)),
{
    let value_str = parse_string(value)?;
    let name = value_str.as_str();
    if str_equal(name, "NW") {
        Ok(WindowAnchor::NorthWest)
    } else if str_equal(name, "NE") {
        Ok(WindowAnchor::NorthEast)
    } else if str_equal(name, "SW") {
        Ok(WindowAnchor::SouthWest)
    } else if str_equal(name, "SE") {
        Ok(WindowAnchor::SouthEast)
    } else {
        Err(ParseError::WindowAnchor(WireValue::String(value_str)))
    }
}

/// `win_float_pos`: the grid, the window (not read), the anchor, the grid
/// that the window floats over, the row and the column of the anchor point,
/// whether the mouse is enabled, and the z-index; then, if the sender
/// knows them, the composition index and the row and column on the screen.
pub open spec fn win_float_pos_event(args: Seq<WireView>) -> Result<
    RedrawEventView,
    ParseErrorView,
> {
    let grid = as_u64(args[0]);
    let anchor = as_window_anchor(args[2]);
    let anchor_grid = as_u64(args[3]);
    let anchor_row = as_number(args[4]);
    let anchor_column = as_number(args[5]);
    let mouse_enabled = as_bool(args[6]);
    let z_index = as_u64(args[7]);
    let comp_index = as_optional_u64(slot_at(args, 8));
    let screen_row = as_optional_u64(slot_at(args, 9));
    let screen_col = as_optional_u64(slot_at(args, 10));
    if args.len() < 8 {
        Err(shape_error(args))
    } else if grid is Err {
        Err(grid->Err_0)
    } else if anchor is Err {
        Err(anchor->Err_0)
    } else if anchor_grid is Err {
        Err(anchor_grid->Err_0)
    } else if anchor_row is Err {
        Err(anchor_row->Err_0)
    } else if anchor_column is Err {
        Err(anchor_column->Err_0)
    } else if mouse_enabled is Err {
        Err(mouse_enabled->Err_0)
    } else if z_index is Err {
        Err(z_index->Err_0)
    } else if comp_index is Err {
        Err(comp_index->Err_0)
    } else if screen_row is Err {
        Err(screen_row->Err_0)
    } else if screen_col is Err {
        Err(screen_col->Err_0)
    } else {
        Ok(
            RedrawEventView::WindowFloatPosition {
                grid: grid->Ok_0,
                anchor: anchor->Ok_0,
                anchor_grid: anchor_grid->Ok_0,
                anchor_row: anchor_row->Ok_0,
                anchor_column: anchor_column->Ok_0,
                mouse_enabled: mouse_enabled->Ok_0,
                z_index: z_index->Ok_0,
                comp_index: comp_index->Ok_0,
                screen_row: screen_row->Ok_0,
                screen_col: screen_col->Ok_0,
            },
        )
    }
}

/// Decodes one `win_float_pos` tuple.
pub fn parse_win_float_pos(win_float_pos_arguments: &Vec<WireValue>) -> (r: Result<
    RedrawEvent,
    ParseError,
>)
    ensures
        yields_view(r, win_float_pos_event(views_of(win_float_pos_arguments@))),
{
    let (slots, optional) = extract_values_with_optional(win_float_pos_arguments, 8, 3)?;
    let grid = parse_u64(slots[0])?;
    let anchor = parse_window_anchor(slots[2])?;
    let anchor_grid = parse_u64(slots[3])?;
    let anchor_row = parse_f64(slots[4])?;
    let anchor_column = parse_f64(slots[5])?;
    let mouse_enabled = parse_bool(slots[6])?;
    let z_index = parse_u64(slots[7])?;
    let comp_index = parse_optional_u64(optional[0])?;
    let screen_row = parse_optional_u64(optional[1])?;
    let screen_col = parse_optional_u64(optional[2])?;
    Ok(
        RedrawEvent::WindowFloatPosition {
            grid,
            anchor,
            anchor_grid,
            anchor_row,
            anchor_column,
            mouse_enabled,
            z_index,
            comp_index,
            screen_row,
            screen_col,
        },
    )
}

/// `win_external_pos`: the grid and the window, which is not read.
pub open spec fn win_external_pos_event(args: Seq<WireView>) -> Result<
    RedrawEventView,
    ParseErrorView,
> {
    let grid = as_u64(args[0]);
    if args.len() < 2 {
        Err(shape_error(args))
    } else if grid is Err {
        Err(grid->Err_0)
    } else {
        Ok(RedrawEventView::WindowExternalPosition { grid: grid->Ok_0 })
    }
}

/// Decodes one `win_external_pos` tuple.
pub fn parse_win_external_pos(win_external_pos_arguments: &Vec<WireValue>) -> (r: Result<
    RedrawEvent,
    ParseError,
>)
    ensures
        yields_view(r, win_external_pos_event(views_of(win_external_pos_arguments@))),
{
    let slots = extract_values(win_external_pos_arguments, 2)?;
    let grid = parse_u64(slots[0])?;
    Ok(RedrawEvent::WindowExternalPosition { grid })
}

/// `win_hide`: the grid.
pub open spec fn win_hide_event(args: Seq<WireView>) -> Result<RedrawEventView, ParseErrorView> {
    let grid = as_u64(args[0]);
    if args.len() < 1 {
        Err(shape_error(args))
    } else if grid is Err {
        Err(grid->Err_0)
    } else {
        Ok(RedrawEventView::WindowHide { grid: grid->Ok_0 })
    }
}

/// Decodes one `win_hide` tuple.
pub fn parse_win_hide(win_hide_arguments: &Vec<WireValue>) -> (r: Result<RedrawEvent, ParseError>)
    ensures
        yields_view(r, win_hide_event(views_of(win_hide_arguments@))),
{
    let slots = extract_values(win_hide_arguments, 1)?;
    let grid = parse_u64(slots[0])?;
    Ok(RedrawEvent::WindowHide { grid })
}

/// `win_close`: the grid.
pub open spec fn win_close_event(args: Seq<WireView>) -> Result<RedrawEventView, ParseErrorView> {
    let grid = as_u64(args[0]);
    if args.len() < 1 {
        Err(shape_error(args))
    } else if grid is Err {
        Err(grid->Err_0)
    } else {
        Ok(RedrawEventView::WindowClose { grid: grid->Ok_0 })
    }
}

/// Decodes one `win_close` tuple.
pub fn parse_win_close(win_close_arguments: &Vec<WireValue>) -> (r: Result<
    RedrawEvent,
    ParseError,
>)
    ensures
        yields_view(r, win_close_event(views_of(win_close_arguments@))),
{
    let slots = extract_values(win_close_arguments, 1)?;
    let grid = parse_u64(slots[0])?;
    Ok(RedrawEvent::WindowClose { grid })
}

/// `msg_set_pos`: the grid, the row, whether the message area has scrolled
/// over other grids, and the separator character; then, if the sender knows
/// them, the z-index and the composition index.
pub open spec fn msg_set_pos_event(args: Seq<WireView>) -> Result<RedrawEventView, ParseErrorView> {
    let grid = as_u64(args[0]);
    let row = as_u64(args[1]);
    let scrolled = as_bool(args[2]);
    let separator_character = as_string(args[3]);
    let z_index = as_optional_u64(slot_at(args, 4));
    let comp_index = as_optional_u64(slot_at(args, 5));
    if args.len() < 4 {
        Err(shape_error(args))
    } else if grid is Err {
        Err(grid->Err_0)
    } else if row is Err {
        Err(row->Err_0)
    } else if scrolled is Err {
        Err(scrolled->Err_0)
    } else if separator_character is Err {
        Err(separator_character->Err_0)
    } else if z_index is Err {
        Err(z_index->Err_0)
    } else if comp_index is Err {
        Err(comp_index->Err_0)
    } else {
        Ok(
            RedrawEventView::MessageSetPosition {
                grid: grid->Ok_0,
                row: row->Ok_0,
                scrolled: scrolled->Ok_0,
                separator_character: separator_character->Ok_0,
                z_index: z_index->Ok_0,
                comp_index: comp_index->Ok_0,
            },
        )
    }
}

/// Decodes one `msg_set_pos` tuple.
pub fn parse_msg_set_pos(msg_set_pos_arguments: &Vec<WireValue>) -> (r: Result<
    RedrawEvent,
    ParseError,
>)
    ensures
        yields_view(r, msg_set_pos_event(views_of(msg_set_pos_arguments@))),
{
    let (slots, optional) = extract_values_with_optional(msg_set_pos_arguments, 4, 2)?;
    let grid = parse_u64(slots[0])?;
    let row = parse_u64(slots[1])?;
    let scrolled = parse_bool(slots[2])?;
    let separator_character = parse_string(slots[3])?;
    let z_index = parse_optional_u64(optional[0])?;
    let comp_index = parse_optional_u64(optional[1])?;
    Ok(
        RedrawEvent::MessageSetPosition {
            grid,
            row,
            scrolled,
            separator_character,
            z_index,
            comp_index,
        },
    )
}

/// `win_viewport`: the grid, the window (not read), the top line and the
/// line after the bottom one, and the line and the column of the cursor;
/// then, if the sender knows them, the number of lines and by how much the
/// window has scrolled. All of these but the grid are read as numbers.
pub open spec fn win_viewport_event(args: Seq<WireView>) -> Result<
    RedrawEventView,
    ParseErrorView,
> {
    let grid = as_u64(args[0]);
    let top_line = as_number(args[2]);
    let bottom_line = as_number(args[3]);
    let current_line = as_number(args[4]);
    let current_column = as_number(args[5]);
    let line_count = as_optional_number(slot_at(args, 6));
    let scroll_delta = as_optional_number(slot_at(args, 7));
    if args.len() < 6 {
        Err(shape_error(args))
    } else if grid is Err {
        Err(grid->Err_0)
    } else if top_line is Err {
        Err(top_line->Err_0)
    } else if bottom_line is Err {
        Err(bottom_line->Err_0)
    } else if current_line is Err {
        Err(current_line->Err_0)
    } else if current_column is Err {
        Err(current_column->Err_0)
    } else if line_count is Err {
        Err(line_count->Err_0)
    } else if scroll_delta is Err {
        Err(scroll_delta->Err_0)
    } else {
        Ok(
            RedrawEventView::WindowViewport {
                grid: grid->Ok_0,
                top_line: top_line->Ok_0,
                bottom_line: bottom_line->Ok_0,
                current_line: current_line->Ok_0,
                current_column: current_column->Ok_0,
                line_count: line_count->Ok_0,
                scroll_delta: scroll_delta->Ok_0,
            },
        )
    }
}

/// Decodes one `win_viewport` tuple.
pub fn parse_win_viewport(win_viewport_arguments: &Vec<WireValue>) -> (r: Result<
    RedrawEvent,
    ParseError,
>)
    ensures
        yields_view(r, win_viewport_event(views_of(win_viewport_arguments@))),
{
    let (slots, optional) = extract_values_with_optional(win_viewport_arguments, 6, 2)?;
    let grid = parse_u64(slots[0])?;
    let top_line = parse_f64(slots[2])?;
    let bottom_line = parse_f64(slots[3])?;
    let current_line = parse_f64(slots[4])?;
    let current_column = parse_f64(slots[5])?;
    let line_count = parse_optional_f64(optional[0])?;
    let scroll_delta = parse_optional_f64(optional[1])?;
    Ok(
        RedrawEvent::WindowViewport {
            grid,
            top_line,
            bottom_line,
            current_line,
            current_column,
            line_count,
            scroll_delta,
        },
    )
}

/// `win_viewport_margins`: the grid, the window (not read), and the four
/// margins.
pub open spec fn win_viewport_margins_event(args: Seq<WireView>) -> Result<
    RedrawEventView,
    ParseErrorView,
> {
    let grid = as_u64(args[0]);
    let top = as_u64(args[2]);
    let bottom = as_u64(args[3]);
    let left = as_u64(args[4]);
    let right = as_u64(args[5]);
    if args.len() < 6 {
        Err(shape_error(args))
    } else if grid is Err {
        Err(grid->Err_0)
    } else if top is Err {
        Err(top->Err_0)
    } else if bottom is Err {
        Err(bottom->Err_0)
    } else if left is Err {
        Err(left->Err_0)
    } else if right is Err {
        Err(right->Err_0)
    } else {
        Ok(
            RedrawEventView::WindowViewportMargins {
                grid: grid->Ok_0,
                top: top->Ok_0,
                bottom: bottom->Ok_0,
                left: left->Ok_0,
                right: right->Ok_0,
            },
        )
    }
}

/// Decodes one `win_viewport_margins` tuple.
pub fn parse_win_viewport_margins(win_viewport_margins_arguments: &Vec<WireValue>) -> (r: Result<
    RedrawEvent,
    ParseError,
>)
    ensures
        yields_view(r, win_viewport_margins_event(views_of(win_viewport_margins_arguments@))),
{
    let slots = extract_values(win_viewport_margins_arguments, 6)?;
    let grid = parse_u64(slots[0])?;
    let top = parse_u64(slots[2])?;
    let bottom = parse_u64(slots[3])?;
    let left = parse_u64(slots[4])?;
    let right = parse_u64(slots[5])?;
    Ok(RedrawEvent::WindowViewportMargins { grid, top, bottom, left, right })
}

} // verus!
