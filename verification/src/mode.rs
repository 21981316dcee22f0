//! The events that report the state of the editor: its title, its modes and
//! its options.

use vstd::prelude::*;
use crate::editor::{cursor_shape_named, unset_cursor_mode, CursorMode, CursorShape};
use crate::error::{yields, yields_view, ParseError, ParseErrorView};
use crate::event::{
    EditorMode, EditorModeView, GuiOption, GuiOptionView, RedrawEvent,
    RedrawEventView,
};
use crate::extract::{
    as_array, as_bool, as_mapping, as_number, as_string, as_u64, extract_values, parse_array,
    parse_bool, parse_f64, parse_map, parse_string, parse_u64, shape_error,
};
use crate::sequence::{lemma_try_map_fails, lemma_try_map_step, try_map};
use crate::text::str_equal;
use crate::wire::{pair_views_of, views_of, WireValue, WireView};

verus! {

/// `set_title`: the title.
pub open spec fn set_title_event(args: Seq<WireView>) -> Result<RedrawEventView, ParseErrorView> {
    let title = as_string(args[0]);
    if args.len() < 1 {
        Err(shape_error(args))
    } else if title is Err {
        Err(title->Err_0)
    } else {
        Ok(RedrawEventView::SetTitle { title: title->Ok_0 })
    }
}

/// Decodes one `set_title` tuple.
pub fn parse_set_title(set_title_arguments: &Vec<WireValue>) -> (r: Result<
    RedrawEvent,
    ParseError,
>)
    ensures
        yields_view(r, set_title_event(views_of(set_title_arguments@))),
{
    let slots = extract_values(set_title_arguments, 1)?;
    let title = parse_string(slots[0])?;
    Ok(RedrawEvent::SetTitle { title })
}

/// `mode` after one entry of the map that describes a cursor mode.
///
/// The key has to be a string. Under a known key the value has to be of the
/// kind of that key, and sets its field; a shape name that names no shape
/// unsets the shape. An entry under any other key is passed over.
pub open spec fn with_mode_entry(mode: CursorMode, key: WireView, value: WireView) -> Result<
    CursorMode,
    ParseErrorView,
> {
    match as_string(key) {
        Err(e) => Err(e),
        Ok(name) => {
            if name == "cursor_shape"@ {
                match as_string(value) {
                    Ok(shape) => Ok(CursorMode { shape: cursor_shape_named(shape), ..mode }),
                    Err(e) => Err(e),
                }
            } else if name == "cell_percentage"@ {
                match as_u64(value) {
                    Ok(percentage) => Ok(CursorMode { cell_percentage: Some(percentage), ..mode }),
                    Err(e) => Err(e),
                }
            } else if name == "blinkwait"@ {
                match as_u64(value) {
                    Ok(time) => Ok(CursorMode { blinkwait: Some(time), ..mode }),
                    Err(e) => Err(e),
                }
            } else if name == "blinkon"@ {
                match as_u64(value) {
                    Ok(time) => Ok(CursorMode { blinkon: Some(time), ..mode }),
                    Err(e) => Err(e),
                }
            } else if name == "blinkoff"@ {
                match as_u64(value) {
                    Ok(time) => Ok(CursorMode { blinkoff: Some(time), ..mode }),
                    Err(e) => Err(e),
                }
            } else if name == "attr_id"@ {
                match as_u64(value) {
                    Ok(id) => Ok(CursorMode { style_id: Some(id), ..mode }),
                    Err(e) => Err(e),
                }
            } else {
                Ok(mode)
            }
        },
    }
}

/// The cursor mode that a sequence of map entries describes: the mode that
/// says nothing, changed by each entry in wire order; the first malformed
/// entry fails the whole mode.
pub open spec fn cursor_mode_of(entries: Seq<(WireView, WireView)>) -> Result<
    CursorMode,
    ParseErrorView,
>
    decreases entries.len(),
{
    if entries.len() == 0 {
        Ok(unset_cursor_mode())
    } else {
        match cursor_mode_of(entries.drop_last()) {
            Err(e) => Err(e),
            Ok(mode) => with_mode_entry(mode, entries.last().0, entries.last().1),
        }
    }
}

/// A failure on a prefix of the entries is the failure on all of them.
pub proof fn lemma_cursor_mode_fails(entries: Seq<(WireView, WireView)>, i: int)
    requires
        0 <= i <= entries.len(),
        cursor_mode_of(entries.take(i)) is Err,
    ensures
        cursor_mode_of(entries) == cursor_mode_of(entries.take(i)),
    decreases entries.len() - i,
{
    if i == entries.len() {
        assert(entries.take(i) =~= entries);
    } else {
        assert(entries.take(i + 1).drop_last() =~= entries.take(i));
        lemma_cursor_mode_fails(entries, i + 1);
    }
}

/// The cursor mode that a map describes.
pub open spec fn as_cursor_mode(value: WireView) -> Result<CursorMode, ParseErrorView> {
    match as_mapping(value) {
        Err(e) => Err(e),
        Ok(entries) => cursor_mode_of(entries),
    }
}

/// `mode` after one entry of the map that describes a cursor mode.
pub fn apply_mode_entry(mode: CursorMode, key: &WireValue, value: &WireValue) -> (r: Result<
    CursorMode,
    ParseError,
>)
    ensures
        yields(r, with_mode_entry(mode, key@, value@)),
{
    let mut changed = mode;
    let name = parse_string(key)?;
    let name = name.as_str();
    if str_equal(name, "cursor_shape") {
        let shape = parse_string(value)?;
        changed.shape = CursorShape::from_type_name(shape.as_str());
    } else if str_equal(name, "cell_percentage") {
        changed.cell_percentage = Some(parse_u64(value)?);
    } else if str_equal(name, "blinkwait") {
        changed.blinkwait = Some(parse_u64(value)?);
    } else if str_equal(name, "blinkon") {
        changed.blinkon = Some(parse_u64(value)?);
    } else if str_equal(name, "blinkoff") {
        changed.blinkoff = Some(parse_u64(value)?);
    } else if str_equal(name, "attr_id") {
        changed.style_id = Some(parse_u64(value)?);
    }
    Ok(changed)
}

/// The cursor mode that a map describes.
pub fn parse_cursor_mode(mode_info_value: &WireValue) -> (r: Result<CursorMode, ParseError>)
    ensures
        yields(r, as_cursor_mode(mode_info_value@)),
{
    let info_map = parse_map(mode_info_value)?;
    let mut mode_info = CursorMode::default();
    let mut i: usize = 0;
    while i < info_map.len()
        invariant
            i <= info_map.len(),
            as_mapping(mode_info_value@) == Ok::<Seq<(WireView, WireView)>, ParseErrorView>(
                pair_views_of(info_map@),
            ),
            cursor_mode_of(pair_views_of(info_map@).take(i as int)) == Ok::<
                CursorMode,
                ParseErrorView,
            >(mode_info),
        decreases info_map.len() - i,
    {
        proof {
            let all = pair_views_of(info_map@);
            assert(all.take(i + 1).drop_last() =~= all.take(i as int));
        }
        match apply_mode_entry(mode_info, &info_map[i].0, &info_map[i].1) {
            Ok(changed) => {
                mode_info = changed;
            },
            Err(e) => {
                proof {
                    lemma_cursor_mode_fails(pair_views_of(info_map@), i + 1);
                }
                return Err(e);
            },
        }
        i += 1;
    }
    proof {
        let all = pair_views_of(info_map@);
        assert(all.take(i as int) =~= all);
    }
    Ok(mode_info)
}

/// [`as_cursor_mode`] as a function value.
pub open spec fn cursor_mode_decoder() -> spec_fn(WireView) -> Result<CursorMode, ParseErrorView> {
    |value: WireView| as_cursor_mode(value)
}

/// `mode_info_set`: whether cursor styling is enabled, which is not read,
/// and the list of the cursor modes, each a map. The modes keep their order.
pub open spec fn mode_info_set_event(args: Seq<WireView>) -> Result<
    RedrawEventView,
    ParseErrorView,
> {
    if args.len() < 2 {
        Err(shape_error(args))
    } else {
        match as_array(args[1]) {
            Err(e) => Err(e),
            Ok(infos) => match try_map(infos, cursor_mode_decoder()) {
                Err(e) => Err(e),
                Ok(cursor_modes) => Ok(RedrawEventView::ModeInfoSet { cursor_modes }),
            },
        }
    }
}

/// Decodes one `mode_info_set` tuple.
pub fn parse_mode_info_set(mode_info_set_arguments: &Vec<WireValue>) -> (r: Result<
    RedrawEvent,
    ParseError,
>)
    ensures
        yields_view(r, mode_info_set_event(views_of(mode_info_set_arguments@))),
{
    let slots = extract_values(mode_info_set_arguments, 2)?;
    let mode_info_values = parse_array(slots[1])?;
    let ghost args = views_of(mode_info_set_arguments@);
    let ghost each = cursor_mode_decoder();
    let mut cursor_modes: Vec<CursorMode> = Vec::new();
    let mut i: usize = 0;
    while i < mode_info_values.len()
        invariant
            i <= mode_info_values.len(),
            each == cursor_mode_decoder(),
            args == views_of(mode_info_set_arguments@),
            args.len() >= 2,
            as_array(args[1]) == Ok::<Seq<WireView>, ParseErrorView>(views_of(mode_info_values@)),
            try_map(views_of(mode_info_values@).take(i as int), each) == Ok::<
                Seq<CursorMode>,
                ParseErrorView,
            >(cursor_modes@),
        decreases mode_info_values.len() - i,
    {
        proof {
            lemma_try_map_step(views_of(mode_info_values@), each, i as int);
        }
        match parse_cursor_mode(&mode_info_values[i]) {
            Ok(mode) => {
                cursor_modes.push(mode);
            },
            Err(e) => {
                proof {
                    lemma_try_map_fails(views_of(mode_info_values@), each, i + 1);
                }
                return Err(e);
            },
        }
        i += 1;
    }
    proof {
        assert(views_of(mode_info_values@).take(i as int) =~= views_of(mode_info_values@));
    }
    Ok(RedrawEvent::ModeInfoSet { cursor_modes })
}

/// The option that a name and a value stand for. Under a known name the
/// value has to be of the kind of that option. An unknown name is no error:
/// the option is kept by its name, with the value as it came.
pub open spec fn gui_option_of(name: Seq<char>, value: WireView) -> Result<
    GuiOptionView,
    ParseErrorView,
> {
    if name == "arabicshape"@ {
        match as_bool(value) {
            Ok(on) => Ok(GuiOptionView::ArabicShape(on)),
            Err(e) => Err(e),
        }
    } else if name == "ambiwidth"@ {
        match as_string(value) {
            Ok(text) => Ok(GuiOptionView::AmbiWidth(text)),
            Err(e) => Err(e),
        }
    } else if name == "emoji"@ {
        match as_bool(value) {
            Ok(on) => Ok(GuiOptionView::Emoji(on)),
            Err(e) => Err(e),
        }
    } else if name == "guifont"@ {
        match as_string(value) {
            Ok(text) => Ok(GuiOptionView::GuiFont(text)),
            Err(e) => Err(e),
        }
    } else if name == "guifontset"@ {
        match as_string(value) {
            Ok(text) => Ok(GuiOptionView::GuiFontSet(text)),
            Err(e) => Err(e),
        }
    } else if name == "guifontwide"@ {
        match as_string(value) {
            Ok(text) => Ok(GuiOptionView::GuiFontWide(text)),
            Err(e) => Err(e),
        }
    } else if name == "linespace"@ {
        match as_number(value) {
            Ok(space) => Ok(GuiOptionView::LineSpace(space)),
            Err(e) => Err(e),
        }
    } else if name == "pumblend"@ {
        match as_u64(value) {
            Ok(blend) => Ok(GuiOptionView::Pumblend(blend)),
            Err(e) => Err(e),
        }
    } else if name == "showtabline"@ {
        match as_u64(value) {
            Ok(mode) => Ok(GuiOptionView::ShowTabLine(mode)),
            Err(e) => Err(e),
        }
    } else if name == "termguicolors"@ {
        match as_bool(value) {
            Ok(on) => Ok(GuiOptionView::TermGuiColors(on)),
            Err(e) => Err(e),
        }
    } else {
        Ok(GuiOptionView::Unknown(name, value))
    }
}

/// The option that a name and a value stand for.
pub fn parse_gui_option(name: String, value: &WireValue) -> (r: Result<GuiOption, ParseError>)
    ensures
        yields_view(r, gui_option_of(name@, value@)),
{
    let known = name.as_str();
    if str_equal(known, "arabicshape") {
        Ok(GuiOption::ArabicShape(parse_bool(value)?))
    } else if str_equal(known, "ambiwidth") {
        Ok(GuiOption::AmbiWidth(parse_string(value)?))
    } else if str_equal(known, "emoji") {
        Ok(GuiOption::Emoji(parse_bool(value)?))
    } else if str_equal(known, "guifont") {
        Ok(GuiOption::GuiFont(parse_string(value)?))
    } else if str_equal(known, "guifontset") {
        Ok(GuiOption::GuiFontSet(parse_string(value)?))
    } else if str_equal(known, "guifontwide") {
        Ok(GuiOption::GuiFontWide(parse_string(value)?))
    } else if str_equal(known, "linespace") {
        Ok(GuiOption::LineSpace(parse_f64(value)?))
    } else if str_equal(known, "pumblend") {
        Ok(GuiOption::Pumblend(parse_u64(value)?))
    } else if str_equal(known, "showtabline") {
        Ok(GuiOption::ShowTabLine(parse_u64(value)?))
    } else if str_equal(known, "termguicolors") {
        Ok(GuiOption::TermGuiColors(parse_bool(value)?))
    } else {
        Ok(GuiOption::Unknown(name, value.clone()))
    }
}

/// `option_set`: the name of the option and its value.
pub open spec fn option_set_event(args: Seq<WireView>) -> Result<RedrawEventView, ParseErrorView> {
    if args.len() < 2 {
        Err(shape_error(args))
    } else {
        match as_string(args[0]) {
            Err(e) => Err(e),
            Ok(name) => match gui_option_of(name, args[1]) {
                Err(e) => Err(e),
                Ok(gui_option) => Ok(RedrawEventView::OptionSet { gui_option }),
            },
        }
    }
}

/// Decodes one `option_set` tuple.
pub fn parse_option_set(option_set_arguments: &Vec<WireValue>) -> (r: Result<
    RedrawEvent,
    ParseError,
>)
    ensures
        yields_view(r, option_set_event(views_of(option_set_arguments@))),
{
    let slots = extract_values(option_set_arguments, 2)?;
    let name = parse_string(slots[0])?;
    let gui_option = parse_gui_option(name, slots[1])?;
    Ok(RedrawEvent::OptionSet { gui_option })
}

/// The editor mode that a name stands for. A name outside the table is no
/// error: the mode is kept by its name.
pub open spec fn editor_mode_named(name: Seq<char>) -> EditorModeView {
    if name == "normal"@ {
        EditorModeView::Normal
    } else if name == "insert"@ {
        EditorModeView::Insert
    } else if name == "visual"@ {
        EditorModeView::Visual
    } else if name == "replace"@ {
        EditorModeView::Replace
    } else if name == "cmdline_normal"@ {
        EditorModeView::CmdLine
    } else {
        EditorModeView::Unknown(name)
    }
}

impl EditorMode {
    /// The editor mode that a name stands for.
    pub fn from_name(name: String) -> (mode: EditorMode)
        ensures
            mode@ == editor_mode_named(name@),
    {
        let known = name.as_str();
        if str_equal(known, "normal") {
            EditorMode::Normal
        } else if str_equal(known, "insert") {
            EditorMode::Insert
        } else if str_equal(known, "visual") {
            EditorMode::Visual
        } else if str_equal(known, "replace") {
            EditorMode::Replace
        } else if str_equal(known, "cmdline_normal") {
            EditorMode::CmdLine
        } else {
            EditorMode::Unknown(name)
        }
    }
}

/// `mode_change`: the name of the mode and its index among the cursor
/// modes.
pub open spec fn mode_change_event(args: Seq<WireView>) -> Result<RedrawEventView, ParseErrorView> {
    let mode = as_string(args[0]);
    let mode_index = as_u64(args[1]);
    if args.len() < 2 {
        Err(shape_error(args))
    } else if mode is Err {
        Err(mode->Err_0)
    } else if mode_index is Err {
        Err(mode_index->Err_0)
    } else {
        Ok(
            RedrawEventView::ModeChange {
                mode: editor_mode_named(mode->Ok_0),
                mode_index: mode_index->Ok_0,
            },
        )
    }
}

/// Decodes one `mode_change` tuple.
pub fn parse_mode_change(mode_change_arguments: &Vec<WireValue>) -> (r: Result<
    RedrawEvent,
    ParseError,
>)
    ensures
        yields_view(r, mode_change_event(views_of(mode_change_arguments@))),
{
    let slots = extract_values(mode_change_arguments, 2)?;
    let mode_name = parse_string(slots[0])?;
    let mode_index = parse_u64(slots[1])?;
    Ok(RedrawEvent::ModeChange { mode: EditorMode::from_name(mode_name), mode_index })
}

} // verus!
