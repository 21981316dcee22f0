//! Colors and highlight styles.

use vstd::prelude::*;
use crate::bits::{byte_of, low_byte};
use crate::editor::{unpack_color, unpacked_color, plain_style, Colors, Style, UnderlineStyle};
use crate::error::{yields, yields_view, ParseError, ParseErrorView};
use crate::event::{RedrawEvent, RedrawEventView};
use crate::notice::{note, notice_views_of, Notice, NoticeView};
use crate::extract::{
    as_mapping, as_u64, extract_values, parse_map, parse_u64, read_text, read_u64, shape_error,
    text_of,
};
use crate::text::str_equal;
use crate::wire::{pair_views_of, views_of, WireValue, WireView};

verus! {

/// What an underline attribute does to a style: it sets the underline
/// `kind` if `value` is `true`, and is not read otherwise.
pub open spec fn underline_effect(style: Style, value: WireView, kind: UnderlineStyle) -> Option<
    Style,
> {
    if value == WireView::Boolean(true) {
        Some(Style { underline: Some(kind), ..style })
    } else {
        None
    }
}

/// What the attribute `name` with the value `value` does to a style, or
/// `None` if the attribute is not read.
///
/// A color attribute takes an integer within `u64` and unpacks it; a flag
/// takes a boolean; `blend` takes an integer within `u64` and keeps its low
/// eight bits; an underline attribute has to be `true`. An attribute under
/// any other name, or with a value of another kind, is not read.
pub open spec fn attribute_effect(style: Style, name: Seq<char>, value: WireView) -> Option<Style> {
    if name == "foreground"@ {
        match as_u64(value) {
            Ok(packed) => Some(
                Style {
                    colors: Colors { foreground: Some(unpacked_color(packed)), ..style.colors },
                    ..style
                },
            ),
            Err(_) => None,
        }
    } else if name == "background"@ {
        match as_u64(value) {
            Ok(packed) => Some(
                Style {
                    colors: Colors { background: Some(unpacked_color(packed)), ..style.colors },
                    ..style
                },
            ),
            Err(_) => None,
        }
    } else if name == "special"@ {
        match as_u64(value) {
            Ok(packed) => Some(
                Style {
                    colors: Colors { special: Some(unpacked_color(packed)), ..style.colors },
                    ..style
                },
            ),
            Err(_) => None,
        }
    } else if name == "reverse"@ {
        match value {
            WireView::Boolean(on) => Some(Style { reverse: on, ..style }),
            _ => None,
        }
    } else if name == "italic"@ {
        match value {
            WireView::Boolean(on) => Some(Style { italic: on, ..style }),
            _ => None,
        }
    } else if name == "bold"@ {
        match value {
            WireView::Boolean(on) => Some(Style { bold: on, ..style }),
            _ => None,
        }
    } else if name == "strikethrough"@ {
        match value {
            WireView::Boolean(on) => Some(Style { strikethrough: on, ..style }),
            _ => None,
        }
    } else if name == "blend"@ {
        match as_u64(value) {
            Ok(blend) => Some(Style { blend: byte_of(blend, 0), ..style }),
            Err(_) => None,
        }
    } else if name == "underline"@ {
        underline_effect(style, value, UnderlineStyle::Underline)
    } else if name == "undercurl"@ {
        underline_effect(style, value, UnderlineStyle::UnderCurl)
    } else if name == "underdotted"@ || name == "underdot"@ {
        underline_effect(style, value, UnderlineStyle::UnderDot)
    } else if name == "underdashed"@ || name == "underdash"@ {
        underline_effect(style, value, UnderlineStyle::UnderDash)
    } else if name == "underdouble"@ || name == "underlineline"@ {
        underline_effect(style, value, UnderlineStyle::UnderDouble)
    } else {
        None
    }
}

/// `style` after one attribute of a highlight: changed if the attribute is
/// read, else as it was. A key that is no text is never read.
pub open spec fn with_attribute(style: Style, key: WireView, value: WireView) -> Style {
    match text_of(key) {
        None => style,
        Some(name) => match attribute_effect(style, name, value) {
            Some(changed) => changed,
            None => style,
        },
    }
}

/// The notice that one attribute of a highlight gives rise to: none if the
/// attribute is read.
pub open spec fn attribute_notice(style: Style, key: WireView, value: WireView) -> Option<
    NoticeView,
> {
    match text_of(key) {
        None => Some(NoticeView::InvalidStyleAttribute),
        Some(name) => match attribute_effect(style, name, value) {
            Some(_) => None,
            None => Some(NoticeView::IgnoredStyleAttribute { name }),
        },
    }
}

/// Whether an attribute is read does not depend on the style that it is
/// applied to.
pub proof fn lemma_attribute_notice_of_any_style(
    a: Style,
    b: Style,
    key: WireView,
    value: WireView,
)
    ensures
        attribute_notice(a, key, value) == attribute_notice(b, key, value),
{
}

/// The style that a sequence of attributes describes: the plain style
/// without colors, changed by each attribute in wire order, so that a later
/// attribute overrides an earlier one.
pub open spec fn style_of(attributes: Seq<(WireView, WireView)>) -> Style
    decreases attributes.len(),
{
    if attributes.len() == 0 {
        plain_style(Colors { foreground: None, background: None, special: None })
    } else {
        with_attribute(
            style_of(attributes.drop_last()),
            attributes.last().0,
            attributes.last().1,
        )
    }
}

/// The notices that a sequence of attributes gives rise to, in wire order.
pub open spec fn attribute_notices(attributes: Seq<(WireView, WireView)>) -> Seq<NoticeView>
    decreases attributes.len(),
{
    if attributes.len() == 0 {
        Seq::empty()
    } else {
        let before = attribute_notices(attributes.drop_last());
        match attribute_notice(
            style_of(attributes.drop_last()),
            attributes.last().0,
            attributes.last().1,
        ) {
            Some(notice) => before.push(notice),
            None => before,
        }
    }
}

/// The style that a map of attributes describes.
pub open spec fn as_style(value: WireView) -> Result<Style, ParseErrorView> {
    match as_mapping(value) {
        Ok(attributes) => Ok(style_of(attributes)),
        Err(e) => Err(e),
    }
}

/// The notices that a map of attributes gives rise to; none, if the value
/// is no map.
pub open spec fn style_notices(value: WireView) -> Seq<NoticeView> {
    match as_mapping(value) {
        Ok(attributes) => attribute_notices(attributes),
        Err(_) => Seq::empty(),
    }
}

fn is_true(value: &WireValue) -> (yes: bool)
    ensures
        yes == (value@ == WireView::Boolean(true)),
{
    match value {
        WireValue::Boolean(on) => *on,
        _ => false,
    }
}

fn apply_underline(style: Style, value: &WireValue, kind: UnderlineStyle) -> (changed: Option<Style>)
    ensures
        changed == underline_effect(style, value@, kind),
{
    if is_true(value) {
        let mut changed = style;
        changed.underline = Some(kind);
        Some(changed)
    } else {
        None
    }
}

/// What the attribute `name` with the value `value` does to a style, or
/// `None` if the attribute is not read.
pub fn apply_named_attribute(style: Style, name: &str, value: &WireValue) -> (effect: Option<Style>)
    ensures
        effect == attribute_effect(style, name@, value@),
{
    let mut changed = style;
    if str_equal(name, "foreground") {
        match read_u64(value) {
            Some(packed) => {
                changed.colors.foreground = Some(unpack_color(packed));
                Some(changed)
            },
            None => None,
        }
    } else if str_equal(name, "background") {
        match read_u64(value) {
            Some(packed) => {
                changed.colors.background = Some(unpack_color(packed));
                Some(changed)
            },
            None => None,
        }
    } else if str_equal(name, "special") {
        match read_u64(value) {
            Some(packed) => {
                changed.colors.special = Some(unpack_color(packed));
                Some(changed)
            },
            None => None,
        }
    } else if str_equal(name, "reverse") {
        match value {
            WireValue::Boolean(on) => {
                changed.reverse = *on;
                Some(changed)
            },
            _ => None,
        }
    } else if str_equal(name, "italic") {
        match value {
            WireValue::Boolean(on) => {
                changed.italic = *on;
                Some(changed)
            },
            _ => None,
        }
    } else if str_equal(name, "bold") {
        match value {
            WireValue::Boolean(on) => {
                changed.bold = *on;
                Some(changed)
            },
            _ => None,
        }
    } else if str_equal(name, "strikethrough") {
        match value {
            WireValue::Boolean(on) => {
                changed.strikethrough = *on;
                Some(changed)
            },
            _ => None,
        }
    } else if str_equal(name, "blend") {
        match read_u64(value) {
            Some(blend) => {
                changed.blend = low_byte(blend, 0);
                Some(changed)
            },
            None => None,
        }
    } else if str_equal(name, "underline") {
        apply_underline(style, value, UnderlineStyle::Underline)
    } else if str_equal(name, "undercurl") {
        apply_underline(style, value, UnderlineStyle::UnderCurl)
    } else if str_equal(name, "underdotted") || str_equal(name, "underdot") {
        apply_underline(style, value, UnderlineStyle::UnderDot)
    } else if str_equal(name, "underdashed") || str_equal(name, "underdash") {
        apply_underline(style, value, UnderlineStyle::UnderDash)
    } else if str_equal(name, "underdouble") || str_equal(name, "underlineline") {
        apply_underline(style, value, UnderlineStyle::UnderDouble)
    } else {
        None
    }
}

/// `style` after one attribute of a highlight, and the notice that the
/// attribute gives rise to.
pub fn apply_attribute(style: Style, key: &WireValue, value: &WireValue) -> (r: (
    Style,
    Option<Notice>,
))
    ensures
        r.0 == with_attribute(style, key@, value@),
        r.1 matches Some(notice) ==> attribute_notice(style, key@, value@) == Some(notice@),
        r.1 is None ==> attribute_notice(style, key@, value@) is None,
{
    match read_text(key) {
        None => (style, Some(Notice::InvalidStyleAttribute)),
        Some(name) => match apply_named_attribute(style, name.as_str(), value) {
            Some(changed) => (changed, None),
            None => (style, Some(Notice::IgnoredStyleAttribute { name })),
        },
    }
}

/// Reads a map of attributes: the style that it describes, with the notices
/// that its attributes give rise to appended to `notices`. Only a value
/// that is no map is an error, and then nothing is appended.
pub fn parse_style_noting(style_map: &WireValue, notices: &mut Vec<Notice>) -> (r: Result<
    Style,
    ParseError,
>)
    ensures
        yields(r, as_style(style_map@)),
        notice_views_of(final(notices)@) == notice_views_of(old(notices)@) + style_notices(
            style_map@,
        ),
{
    let attributes = parse_map(style_map)?;
    let mut style = Style::new(Colors::new(None, None, None));
    let mut i: usize = 0;
    while i < attributes.len()
        invariant
            i <= attributes.len(),
            style == style_of(pair_views_of(attributes@).take(i as int)),
            notice_views_of(notices@) == notice_views_of(old(notices)@) + attribute_notices(
                pair_views_of(attributes@).take(i as int),
            ),
        decreases attributes.len() - i,
    {
        proof {
            let all = pair_views_of(attributes@);
            assert(all.take(i + 1).drop_last() =~= all.take(i as int));
        }
        let (changed, notice) = apply_attribute(style, &attributes[i].0, &attributes[i].1);
        style = changed;
        if let Some(notice) = notice {
            note(notices, notice);
        }
        i += 1;
    }
    proof {
        let all = pair_views_of(attributes@);
        assert(all.take(i as int) =~= all);
    }
    Ok(style)
}

/// The style that a map of attributes describes. Only a value that is no
/// map is an error.
pub fn parse_style(style_map: &WireValue) -> (r: Result<Style, ParseError>)
    ensures
        yields(r, as_style(style_map@)),
{
    let mut notices: Vec<Notice> = Vec::new();
    parse_style_noting(style_map, &mut notices)
}

/// `hl_attr_define`: the id of the highlight, the map of its attributes,
/// the attributes for a terminal and a list of further information. The last
/// two have to be there and are not read.
pub open spec fn hl_attr_define_event(args: Seq<WireView>) -> Result<
    RedrawEventView,
    ParseErrorView,
> {
    let style = as_style(args[1]);
    let id = as_u64(args[0]);
    if args.len() < 4 {
        Err(shape_error(args))
    } else if style is Err {
        Err(style->Err_0)
    } else if id is Err {
        Err(id->Err_0)
    } else {
        Ok(RedrawEventView::HighlightAttributesDefine { id: id->Ok_0, style: style->Ok_0 })
    }
}

/// The notices that a `hl_attr_define` tuple gives rise to if it decodes:
/// those of its map of attributes.
pub open spec fn hl_attr_define_notices(args: Seq<WireView>) -> Seq<NoticeView> {
    if hl_attr_define_event(args) is Ok {
        style_notices(args[1])
    } else {
        Seq::empty()
    }
}

/// Decodes a `hl_attr_define` tuple, and appends to `notices` what it gives
/// rise to.
pub fn parse_hl_attr_define_noting(
    hl_attr_define_arguments: &Vec<WireValue>,
    notices: &mut Vec<Notice>,
) -> (r: Result<RedrawEvent, ParseError>)
    ensures
        yields_view(r, hl_attr_define_event(views_of(hl_attr_define_arguments@))),
        notice_views_of(final(notices)@) == notice_views_of(old(notices)@)
            + hl_attr_define_notices(views_of(hl_attr_define_arguments@)),
{
    let slots = extract_values(hl_attr_define_arguments, 4)?;
    let mut found: Vec<Notice> = Vec::new();
    let style = parse_style_noting(slots[1], &mut found)?;
    let id = parse_u64(slots[0])?;
    notices.append(&mut found);
    Ok(RedrawEvent::HighlightAttributesDefine { id, style })
}

/// Decodes one `hl_attr_define` tuple. What the tuple gives rise to is not
/// noted.
pub fn parse_hl_attr_define(hl_attr_define_arguments: &Vec<WireValue>) -> (r: Result<
    RedrawEvent,
    ParseError,
>)
    ensures
        yields_view(r, hl_attr_define_event(views_of(hl_attr_define_arguments@))),
{
    let mut notices: Vec<Notice> = Vec::new();
    parse_hl_attr_define_noting(hl_attr_define_arguments, &mut notices)
}

/// `default_colors_set`: the foreground, the background and the special
/// color, packed, and the two colors for a terminal, which have to be there
/// and are not read.
pub open spec fn default_colors_event(args: Seq<WireView>) -> Result<
    RedrawEventView,
    ParseErrorView,
> {
    let foreground = as_u64(args[0]);
    let background = as_u64(args[1]);
    let special = as_u64(args[2]);
    if args.len() < 5 {
        Err(shape_error(args))
    } else if foreground is Err {
        Err(foreground->Err_0)
    } else if background is Err {
        Err(background->Err_0)
    } else if special is Err {
        Err(special->Err_0)
    } else {
        Ok(
            RedrawEventView::DefaultColorsSet {
                colors: Colors {
                    foreground: Some(unpacked_color(foreground->Ok_0)),
                    background: Some(unpacked_color(background->Ok_0)),
                    special: Some(unpacked_color(special->Ok_0)),
                },
            },
        )
    }
}

/// Decodes one `default_colors_set` tuple.
pub fn parse_default_colors(default_colors_arguments: &Vec<WireValue>) -> (r: Result<
    RedrawEvent,
    ParseError,
>)
    ensures
        yields_view(r, default_colors_event(views_of(default_colors_arguments@))),
{
    let slots = extract_values(default_colors_arguments, 5)?;
    let foreground = unpack_color(parse_u64(slots[0])?);
    let background = unpack_color(parse_u64(slots[1])?);
    let special = unpack_color(parse_u64(slots[2])?);
    Ok(
        RedrawEvent::DefaultColorsSet {
            colors: Colors {
                foreground: Some(foreground),
                background: Some(background),
                special: Some(special),
            },
        },
    )
}

} // verus!
