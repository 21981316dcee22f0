//! The events that draw on a grid.

use vstd::prelude::*;
use crate::error::{yields_view, ParseError, ParseErrorView};
use crate::event::{
    cell_views_of, GridLineCell, GridLineCellView, RedrawEvent, RedrawEventView,
};
use crate::extract::{
    as_array, as_i64, as_optional_u64, as_string, as_u64, extract_values, parse_array, parse_i64,
    parse_optional_u64, parse_string, parse_u64, shape_error, slot_at,
};
use crate::notice::{note, notice_views_of, CursorField, Notice, NoticeView};
use crate::render::debug_text;
use crate::sequence::{lemma_try_map_fails, lemma_try_map_step, try_map};
use crate::wire::{views_of, WireValue, WireView};

verus! {

/// One cell of a grid line: a tuple of the text, then optionally the
/// highlight id, then optionally the repeat count. Further values are left
/// aside. An empty tuple is a structural error. Of several malformed
/// values, the highlight id is reported before the repeat count, and the
/// text last.
pub open spec fn as_grid_line_cell(value: WireView) -> Result<GridLineCellView, ParseErrorView> {
    match as_array(value) {
        Err(e) => Err(e),
        Ok(contents) => {
            let highlight_id = as_optional_u64(slot_at(contents, 1));
            let repeat = as_optional_u64(slot_at(contents, 2));
            let text = as_string(contents[0]);
            if contents.len() == 0 {
                Err(shape_error(contents))
            } else if highlight_id is Err {
                Err(highlight_id->Err_0)
            } else if repeat is Err {
                Err(repeat->Err_0)
            } else if text is Err {
                Err(text->Err_0)
            } else {
                Ok(
                    GridLineCellView {
                        text: text->Ok_0,
                        highlight_id: highlight_id->Ok_0,
                        repeat: repeat->Ok_0,
                    },
                )
            }
        },
    }
}

/// Decodes one cell of a grid line.
pub fn parse_grid_line_cell(grid_line_cell: &WireValue) -> (r: Result<GridLineCell, ParseError>)
    ensures
        yields_view(r, as_grid_line_cell(grid_line_cell@)),
{
    let cell_contents = parse_array(grid_line_cell)?;
    if cell_contents.len() == 0 {
        return Err(ParseError::Format(debug_text(cell_contents)));
    }
    let highlight_slot = if cell_contents.len() > 1 {
        Some(&cell_contents[1])
    } else {
        None
    };
    let highlight_id = parse_optional_u64(highlight_slot)?;
    let repeat_slot = if cell_contents.len() > 2 {
        Some(&cell_contents[2])
    } else {
        None
    };
    let repeat = parse_optional_u64(repeat_slot)?;
    let text = parse_string(&cell_contents[0])?;
    Ok(GridLineCell { text, highlight_id, repeat })
}

/// [`as_grid_line_cell`] as a function value.
pub open spec fn grid_line_cell_decoder() -> spec_fn(WireView) -> Result<
    GridLineCellView,
    ParseErrorView,
> {
    |cell: WireView| as_grid_line_cell(cell)
}

/// The cells of a grid line, in order; the first malformed cell fails the
/// whole line.
pub open spec fn as_grid_line_cells(value: WireView) -> Result<
    Seq<GridLineCellView>,
    ParseErrorView,
> {
    match as_array(value) {
        Err(e) => Err(e),
        Ok(cells) => try_map(cells, grid_line_cell_decoder()),
    }
}

/// Decodes the cells of a grid line.
pub fn parse_grid_line_cells(cells_value: &WireValue) -> (r: Result<Vec<GridLineCell>, ParseError>)
    ensures
        r matches Ok(cells) ==> as_grid_line_cells(cells_value@) == Ok::<
            Seq<GridLineCellView>,
            ParseErrorView,
        >(cell_views_of(cells@)),
        r matches Err(e) ==> as_grid_line_cells(cells_value@) == Err::<
            Seq<GridLineCellView>,
            ParseErrorView,
        >(e@),
{
    let items = parse_array(cells_value)?;
    let ghost each = grid_line_cell_decoder();
    let mut cells: Vec<GridLineCell> = Vec::new();
    let mut i: usize = 0;
    proof {
        assert(cell_views_of(cells@) =~= Seq::empty());
    }
    while i < items.len()
        invariant
            i <= items.len(),
            each == grid_line_cell_decoder(),
            as_array(cells_value@) == Ok::<Seq<WireView>, ParseErrorView>(views_of(items@)),
            try_map(views_of(items@).take(i as int), each) == Ok::<
                Seq<GridLineCellView>,
                ParseErrorView,
            >(cell_views_of(cells@)),
        decreases items.len() - i,
    {
        proof {
            lemma_try_map_step(views_of(items@), each, i as int);
        }
        match parse_grid_line_cell(&items[i]) {
            Ok(cell) => {
                proof {
                    assert(cell_views_of(cells@.push(cell)) =~= cell_views_of(cells@).push(cell@));
                }
                cells.push(cell);
            },
            Err(e) => {
                proof {
                    lemma_try_map_fails(views_of(items@), each, i + 1);
                }
                return Err(e);
            },
        }
        i += 1;
    }
    proof {
        assert(views_of(items@).take(i as int) =~= views_of(items@));
    }
    Ok(cells)
}

/// `grid_resize`: the grid, its new width and its new height.
pub open spec fn grid_resize_event(args: Seq<WireView>) -> Result<RedrawEventView, ParseErrorView> {
    let grid = as_u64(args[0]);
    let width = as_u64(args[1]);
    let height = as_u64(args[2]);
    if args.len() < 3 {
        Err(shape_error(args))
    } else if grid is Err {
        Err(grid->Err_0)
    } else if width is Err {
        Err(width->Err_0)
    } else if height is Err {
        Err(height->Err_0)
    } else {
        Ok(RedrawEventView::Resize { grid: grid->Ok_0, width: width->Ok_0, height: height->Ok_0 })
    }
}

/// Decodes one `grid_resize` tuple.
pub fn parse_grid_resize(grid_resize_arguments: &Vec<WireValue>) -> (r: Result<
    RedrawEvent,
    ParseError,
>)
    ensures
        yields_view(r, grid_resize_event(views_of(grid_resize_arguments@))),
{
    let slots = extract_values(grid_resize_arguments, 3)?;
    let grid = parse_u64(slots[0])?;
    let width = parse_u64(slots[1])?;
    let height = parse_u64(slots[2])?;
    Ok(RedrawEvent::Resize { grid, width, height })
}

/// `grid_line`: the grid, the row, the column of the first cell, and the
/// cells.
pub open spec fn grid_line_event(args: Seq<WireView>) -> Result<RedrawEventView, ParseErrorView> {
    let grid = as_u64(args[0]);
    let row = as_u64(args[1]);
    let column_start = as_u64(args[2]);
    let cells = as_grid_line_cells(args[3]);
    if args.len() < 4 {
        Err(shape_error(args))
    } else if grid is Err {
        Err(grid->Err_0)
    } else if row is Err {
        Err(row->Err_0)
    } else if column_start is Err {
        Err(column_start->Err_0)
    } else if cells is Err {
        Err(cells->Err_0)
    } else {
        Ok(
            RedrawEventView::GridLine {
                grid: grid->Ok_0,
                row: row->Ok_0,
                column_start: column_start->Ok_0,
                cells: cells->Ok_0,
            },
        )
    }
}

/// Decodes one `grid_line` tuple.
pub fn parse_grid_line(grid_line_arguments: &Vec<WireValue>) -> (r: Result<RedrawEvent, ParseError>)
    ensures
        yields_view(r, grid_line_event(views_of(grid_line_arguments@))),
{
    let slots = extract_values(grid_line_arguments, 4)?;
    let grid = parse_u64(slots[0])?;
    let row = parse_u64(slots[1])?;
    let column_start = parse_u64(slots[2])?;
    let cells = parse_grid_line_cells(slots[3])?;
    Ok(RedrawEvent::GridLine { grid, row, column_start, cells })
}

/// `grid_clear`: the grid.
pub open spec fn grid_clear_event(args: Seq<WireView>) -> Result<RedrawEventView, ParseErrorView> {
    let grid = as_u64(args[0]);
    if args.len() < 1 {
        Err(shape_error(args))
    } else if grid is Err {
        Err(grid->Err_0)
    } else {
        Ok(RedrawEventView::Clear { grid: grid->Ok_0 })
    }
}

/// Decodes one `grid_clear` tuple.
pub fn parse_grid_clear(grid_clear_arguments: &Vec<WireValue>) -> (r: Result<
    RedrawEvent,
    ParseError,
>)
    ensures
        yields_view(r, grid_clear_event(views_of(grid_clear_arguments@))),
{
    let slots = extract_values(grid_clear_arguments, 1)?;
    let grid = parse_u64(slots[0])?;
    Ok(RedrawEvent::Clear { grid })
}

/// `grid_destroy`: the grid.
pub open spec fn grid_destroy_event(args: Seq<WireView>) -> Result<
    RedrawEventView,
    ParseErrorView,
> {
    let grid = as_u64(args[0]);
    if args.len() < 1 {
        Err(shape_error(args))
    } else if grid is Err {
        Err(grid->Err_0)
    } else {
        Ok(RedrawEventView::Destroy { grid: grid->Ok_0 })
    }
}

/// Decodes one `grid_destroy` tuple.
pub fn parse_grid_destroy(grid_destroy_arguments: &Vec<WireValue>) -> (r: Result<
    RedrawEvent,
    ParseError,
>)
    ensures
        yields_view(r, grid_destroy_event(views_of(grid_destroy_arguments@))),
{
    let slots = extract_values(grid_destroy_arguments, 1)?;
    let grid = parse_u64(slots[0])?;
    Ok(RedrawEvent::Destroy { grid })
}

/// A cursor coordinate as it is kept: a negative one counts as 0.
pub open spec fn clamped_coordinate(coordinate: i64) -> u64 {
    if coordinate < 0 {
        0
    } else {
        coordinate as u64
    }
}

/// A cursor coordinate as it is kept: a negative one counts as 0.
pub fn clamp_coordinate(coordinate: i64) -> (kept: u64)
    ensures
        kept == clamped_coordinate(coordinate),
{
    if coordinate < 0 {
        0
    } else {
        coordinate as u64
    }
}

/// `grid_cursor_goto`: the grid, the row and the column. Row and column are
/// signed on the wire, and a negative one is not an error: it counts as 0.
pub open spec fn grid_cursor_goto_event(args: Seq<WireView>) -> Result<
    RedrawEventView,
    ParseErrorView,
> {
    let grid = as_u64(args[0]);
    let row = as_i64(args[1]);
    let column = as_i64(args[2]);
    if args.len() < 3 {
        Err(shape_error(args))
    } else if grid is Err {
        Err(grid->Err_0)
    } else if row is Err {
        Err(row->Err_0)
    } else if column is Err {
        Err(column->Err_0)
    } else {
        Ok(
            RedrawEventView::CursorGoto {
                grid: grid->Ok_0,
                row: clamped_coordinate(row->Ok_0),
                column: clamped_coordinate(column->Ok_0),
            },
        )
    }
}

/// The notice that a cursor coordinate gives rise to: one, if it is
/// negative.
pub open spec fn coordinate_notices(field: CursorField, coordinate: i64) -> Seq<NoticeView> {
    if coordinate < 0 {
        seq![NoticeView::NegativeCursor { field, value: coordinate }]
    } else {
        Seq::empty()
    }
}

/// The notices that a `grid_cursor_goto` tuple gives rise to if it decodes:
/// one for a negative row, then one for a negative column.
pub open spec fn grid_cursor_goto_notices(args: Seq<WireView>) -> Seq<NoticeView> {
    if grid_cursor_goto_event(args) is Ok {
        coordinate_notices(CursorField::Row, as_i64(args[1])->Ok_0) + coordinate_notices(
            CursorField::Column,
            as_i64(args[2])->Ok_0,
        )
    } else {
        Seq::empty()
    }
}

fn note_coordinate(notices: &mut Vec<Notice>, field: CursorField, coordinate: i64)
    ensures
        notice_views_of(final(notices)@) == notice_views_of(old(notices)@) + coordinate_notices(
            field,
            coordinate,
        ),
{
    if coordinate < 0 {
        note(notices, Notice::NegativeCursor { field, value: coordinate });
    }
}

/// Decodes a `grid_cursor_goto` tuple, and appends to `notices` what it
/// gives rise to.
pub fn parse_grid_cursor_goto_noting(
    cursor_goto_arguments: &Vec<WireValue>,
    notices: &mut Vec<Notice>,
) -> (r: Result<RedrawEvent, ParseError>)
    ensures
        yields_view(r, grid_cursor_goto_event(views_of(cursor_goto_arguments@))),
        notice_views_of(final(notices)@) == notice_views_of(old(notices)@)
            + grid_cursor_goto_notices(views_of(cursor_goto_arguments@)),
{
    let slots = extract_values(cursor_goto_arguments, 3)?;
    let grid = parse_u64(slots[0])?;
    let row = parse_i64(slots[1])?;
    let column = parse_i64(slots[2])?;
    note_coordinate(notices, CursorField::Row, row);
    note_coordinate(notices, CursorField::Column, column);
    Ok(
        RedrawEvent::CursorGoto {
            grid,
            row: clamp_coordinate(row),
            column: clamp_coordinate(column),
        },
    )
}

/// Decodes one `grid_cursor_goto` tuple. What the tuple gives rise to is not
/// noted.
pub fn parse_grid_cursor_goto(cursor_goto_arguments: &Vec<WireValue>) -> (r: Result<
    RedrawEvent,
    ParseError,
>)
    ensures
        yields_view(r, grid_cursor_goto_event(views_of(cursor_goto_arguments@))),
{
    let mut notices: Vec<Notice> = Vec::new();
    parse_grid_cursor_goto_noting(cursor_goto_arguments, &mut notices)
}

/// `grid_scroll`: the grid, the four edges of the region, and by how many
/// rows and columns it scrolls.
pub open spec fn grid_scroll_event(args: Seq<WireView>) -> Result<RedrawEventView, ParseErrorView> {
    let grid = as_u64(args[0]);
    let top = as_u64(args[1]);
    let bottom = as_u64(args[2]);
    let left = as_u64(args[3]);
    let right = as_u64(args[4]);
    let rows = as_i64(args[5]);
    let columns = as_i64(args[6]);
    if args.len() < 7 {
        Err(shape_error(args))
    } else if grid is Err {
        Err(grid->Err_0)
    } else if top is Err {
        Err(top->Err_0)
    } else if bottom is Err {
        Err(bottom->Err_0)
    } else if left is Err {
        Err(left->Err_0)
    } else if right is Err {
        Err(right->Err_0)
    } else if rows is Err {
        Err(rows->Err_0)
    } else if columns is Err {
        Err(columns->Err_0)
    } else {
        Ok(
            RedrawEventView::Scroll {
                grid: grid->Ok_0,
                top: top->Ok_0,
                bottom: bottom->Ok_0,
                left: left->Ok_0,
                right: right->Ok_0,
                rows: rows->Ok_0,
                columns: columns->Ok_0,
            },
        )
    }
}

/// Decodes one `grid_scroll` tuple.
pub fn parse_grid_scroll(grid_scroll_arguments: &Vec<WireValue>) -> (r: Result<
    RedrawEvent,
    ParseError,
>)
    ensures
        yields_view(r, grid_scroll_event(views_of(grid_scroll_arguments@))),
{
    let slots = extract_values(grid_scroll_arguments, 7)?;
    let grid = parse_u64(slots[0])?;
    let top = parse_u64(slots[1])?;
    let bottom = parse_u64(slots[2])?;
    let left = parse_u64(slots[3])?;
    let right = parse_u64(slots[4])?;
    let rows = parse_i64(slots[5])?;
    let columns = parse_i64(slots[6])?;
    Ok(RedrawEvent::Scroll { grid, top, bottom, left, right, rows, columns })
}

} // verus!
