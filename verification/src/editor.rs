//! The presentation types that decoded events carry: colors, text styles and
//! cursor modes.

use vstd::prelude::*;
use crate::bits::{byte_of, low_byte};
use crate::text::str_equal;

verus! {

/// A color with an opacity. Each channel is a number of 255ths: 0 is none of
/// it, 255 is all of it.
#[derive(Clone, Copy, Debug, PartialEq, Eq)]
pub struct Color {
    pub red: u8,
    pub green: u8,
    pub blue: u8,
    pub alpha: u8,
}

/// The color that a packed integer stands for: red is bits 16 to 23, green
/// bits 8 to 15, blue bits 0 to 7. Higher bits do not count, and the color is
/// opaque.
pub open spec fn unpacked_color(packed_color: u64) -> Color {
    Color {
        red: byte_of(packed_color, 2),
        green: byte_of(packed_color, 1),
        blue: byte_of(packed_color, 0),
        alpha: 255,
    }
}

/// The 24-bit integer that packs the three channels of a color.
pub open spec fn packed_channels(red: u8, green: u8, blue: u8) -> u64 {
    ((red as u64) << 16) | ((green as u64) << 8) | (blue as u64)
}

/// Unpacks a color from the integer that packs it.
pub fn unpack_color(packed_color: u64) -> (color: Color)
    ensures
        color == unpacked_color(packed_color),
{
    Color {
        red: low_byte(packed_color, 2),
        green: low_byte(packed_color, 1),
        blue: low_byte(packed_color, 0),
        alpha: 255,
    }
}

/// Packing three channels and unpacking the result gives the channels back,
/// in an opaque color.
pub proof fn lemma_unpack_packed(red: u8, green: u8, blue: u8)
    ensures
        unpacked_color(packed_channels(red, green, blue)) == (Color {
            red,
            green,
            blue,
            alpha: 255,
        }),
        packed_channels(red, green, blue) <= 0xff_ffff,
{
    let packed = packed_channels(red, green, blue);
    assert(((packed >> 16) & 0xff) as u8 == red && ((packed >> 8) & 0xff) as u8 == green && ((packed
        >> 0) & 0xff) as u8 == blue && packed <= 0xff_ffff) by (bit_vector)
        requires
            packed == ((red as u64) << 16) | ((green as u64) << 8) | (blue as u64),
    ;
}

/// Unpacking a color and packing its channels gives the low 24 bits back:
/// the higher bits do not count.
pub proof fn lemma_pack_unpacked(packed_color: u64)
    ensures
        packed_channels(
            unpacked_color(packed_color).red,
            unpacked_color(packed_color).green,
            unpacked_color(packed_color).blue,
        ) == packed_color & 0xff_ffff,
{
    let red = ((packed_color >> 16) & 0xff) as u8;
    let green = ((packed_color >> 8) & 0xff) as u8;
    let blue = ((packed_color >> 0) & 0xff) as u8;
    assert(((red as u64) << 16) | ((green as u64) << 8) | (blue as u64) == packed_color & 0xff_ffff)
        by (bit_vector)
        requires
            red == ((packed_color >> 16) & 0xff) as u8,
            green == ((packed_color >> 8) & 0xff) as u8,
            blue == ((packed_color >> 0) & 0xff) as u8,
    ;
}

/// Unpacking is one-to-one on the low 24 bits: two packed integers stand
/// for the same color exactly if their low 24 bits agree.
pub proof fn lemma_unpack_color_one_to_one(a: u64, b: u64)
    ensures
        unpacked_color(a) == unpacked_color(b) <==> a & 0xff_ffff == b & 0xff_ffff,
{
    lemma_pack_unpacked(a);
    lemma_pack_unpacked(b);
    if a & 0xff_ffff == b & 0xff_ffff {
        assert(((a >> 16) & 0xff) as u8 == ((b >> 16) & 0xff) as u8 && ((a >> 8) & 0xff) as u8 == ((b
            >> 8) & 0xff) as u8 && ((a >> 0) & 0xff) as u8 == ((b >> 0) & 0xff) as u8)
            by (bit_vector)
            requires
                a & 0xff_ffff == b & 0xff_ffff,
        ;
    }
}

/// Foreground, background and special color, each of which may be unset.
#[derive(Clone, Copy, Debug, PartialEq, Eq)]
pub struct Colors {
    pub foreground: Option<Color>,
    pub background: Option<Color>,
    pub special: Option<Color>,
}

impl Colors {
    /// The three colors as given.
    pub fn new(foreground: Option<Color>, background: Option<Color>, special: Option<Color>) -> (colors:
        Colors)
        ensures
            colors == (Colors { foreground, background, special }),
    {
        Colors { foreground, background, special }
    }
}

/// How text is underlined.
#[derive(Clone, Copy, Debug, PartialEq, Eq)]
pub enum UnderlineStyle {
    Underline,
    UnderDouble,
    UnderDash,
    UnderDot,
    UnderCurl,
}

/// The attributes of a highlight.
#[derive(Clone, Copy, Debug, PartialEq, Eq)]
pub struct Style {
    pub colors: Colors,
    pub reverse: bool,
    pub italic: bool,
    pub bold: bool,
    pub strikethrough: bool,
    pub blend: u8,
    pub underline: Option<UnderlineStyle>,
}

/// The style with the given colors and nothing else set.
pub open spec fn plain_style(colors: Colors) -> Style {
    Style {
        colors,
        reverse: false,
        italic: false,
        bold: false,
        strikethrough: false,
        blend: 0,
        underline: None,
    }
}

impl Style {
    /// The style with the given colors and nothing else set.
    pub fn new(colors: Colors) -> (style: Style)
        ensures
            style == plain_style(colors),
    {
        Style {
            colors,
            reverse: false,
            italic: false,
            bold: false,
            strikethrough: false,
            blend: 0,
            underline: None,
        }
    }
}

/// The shape of the cursor.
#[derive(Clone, Copy, Debug, PartialEq, Eq)]
pub enum CursorShape {
    Block,
    Horizontal,
    Vertical,
}

/// The shape that a name stands for, if it is the name of a shape.
pub open spec fn cursor_shape_named(name: Seq<char>) -> Option<CursorShape> {
    if name == "block"@ {
        Some(CursorShape::Block)
    } else if name == "horizontal"@ {
        Some(CursorShape::Horizontal)
    } else if name == "vertical"@ {
        Some(CursorShape::Vertical)
    } else {
        None
    }
}

impl CursorShape {
    /// The shape that a name stands for, if it is the name of a shape.
    pub fn from_type_name(name: &str) -> (shape: Option<CursorShape>)
        ensures
            shape == cursor_shape_named(name@),
    {
        if str_equal(name, "block") {
            Some(CursorShape::Block)
        } else if str_equal(name, "horizontal") {
            Some(CursorShape::Horizontal)
        } else if str_equal(name, "vertical") {
            Some(CursorShape::Vertical)
        } else {
            None
        }
    }
}

/// How the cursor looks in one editor mode. A field is `None` where the
/// mode does not say.
#[derive(Clone, Copy, Debug, PartialEq, Eq)]
pub struct CursorMode {
    pub shape: Option<CursorShape>,
    pub style_id: Option<u64>,
    /// The part of the cell that the cursor covers, in hundredths.
    pub cell_percentage: Option<u64>,
    /// Milliseconds before the cursor starts to blink.
    pub blinkwait: Option<u64>,
    /// Milliseconds that the blinking cursor is shown.
    pub blinkon: Option<u64>,
    /// Milliseconds that the blinking cursor is hidden.
    pub blinkoff: Option<u64>,
}

/// The cursor mode that says nothing.
pub open spec fn unset_cursor_mode() -> CursorMode {
    CursorMode {
        shape: None,
        style_id: None,
        cell_percentage: None,
        blinkwait: None,
        blinkon: None,
        blinkoff: None,
    }
}

impl Default for CursorMode {
    fn default() -> (mode: CursorMode)
        ensures
            mode == unset_cursor_mode(),
    {
        CursorMode {
            shape: None,
            style_id: None,
            cell_percentage: None,
            blinkwait: None,
            blinkon: None,
            blinkoff: None,
        }
    }
}

} // verus!
