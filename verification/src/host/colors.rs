//! Terminal colours: the palette behind colour numbers and names.

use vstd::prelude::*;

verus! {

/// One colour by its red, green and blue shares.
#[derive(Clone, Copy, Debug, PartialEq, Eq, Structural)]
pub struct Rgb {
    pub r: u8,
    pub g: u8,
    pub b: u8,
}

/// A colour that a terminal program names.
#[derive(Clone, Copy, Debug, PartialEq, Eq, Structural)]
pub enum NamedColor {
    Black,
    Red,
    Green,
    Yellow,
    Blue,
    Magenta,
    Cyan,
    White,
    BrightBlack,
    BrightRed,
    BrightGreen,
    BrightYellow,
    BrightBlue,
    BrightMagenta,
    BrightCyan,
    BrightWhite,
    Foreground,
    Background,
    Cursor,
    DimBlack,
    DimRed,
    DimGreen,
    DimYellow,
    DimBlue,
    DimMagenta,
    DimCyan,
    DimWhite,
    BrightForeground,
    DimForeground,
}

/// A colour as a terminal emulator reports it for a cell.
#[derive(Clone, Copy, Debug, PartialEq, Eq, Structural)]
pub enum EmulatedColor {
    Spec(Rgb),
    Indexed(u8),
    Named(NamedColor),
}

/// A colour that the outer terminal can draw.
#[derive(Clone, Copy, Debug, PartialEq, Eq, Structural)]
pub enum CellColor {
    Rgb(Rgb),
    Indexed(u8),
    Black,
    Red,
    Green,
    Yellow,
    Blue,
    Magenta,
    Cyan,
    Gray,
    DarkGray,
    LightRed,
    LightGreen,
    LightYellow,
    LightBlue,
    LightMagenta,
    LightCyan,
    White,
}

/// The sixteen colours that have names.
pub open spec fn ansi_palette() -> Seq<(int, int, int)> {
    seq![
        (0int, 0int, 0int),
        (205int, 49int, 49int),
        (13int, 188int, 121int),
        (229int, 229int, 16int),
        (36int, 114int, 200int),
        (188int, 63int, 188int),
        (17int, 168int, 205int),
        (229int, 229int, 229int),
        (102int, 102int, 102int),
        (241int, 76int, 76int),
        (35int, 209int, 139int),
        (245int, 245int, 67int),
        (59int, 142int, 234int),
        (214int, 112int, 214int),
        (41int, 184int, 219int),
        (255int, 255int, 255int),
    ]
}

/// One share of the colour cube, from its step of six.
pub open spec fn cube_share(step: int) -> int {
    if step == 0 {
        0
    } else {
        55 + 40 * step
    }
}

/// The shares of a colour number: the named colours, a cube of six steps a
/// side, and a ramp of greys.
pub open spec fn palette(index: int) -> (int, int, int) {
    if index < 16 {
        ansi_palette()[index]
    } else if index < 232 {
        (
            cube_share((index - 16) / 36),
            cube_share((index - 16) / 6 % 6),
            cube_share((index - 16) % 6),
        )
    } else {
        (8 + 10 * (index - 232), 8 + 10 * (index - 232), 8 + 10 * (index - 232))
    }
}

/// The number of the colour that a name falls back to.
pub open spec fn named_index(color: NamedColor) -> u8 {
    match color {
        NamedColor::Black => 0,
        NamedColor::Red => 1,
        NamedColor::Green => 2,
        NamedColor::Yellow => 3,
        NamedColor::Blue => 4,
        NamedColor::Magenta => 5,
        NamedColor::Cyan => 6,
        NamedColor::White => 7,
        NamedColor::BrightBlack => 8,
        NamedColor::BrightRed => 9,
        NamedColor::BrightGreen => 10,
        NamedColor::BrightYellow => 11,
        NamedColor::BrightBlue => 12,
        NamedColor::BrightMagenta => 13,
        NamedColor::BrightCyan => 14,
        NamedColor::BrightWhite => 15,
        NamedColor::Foreground => 7,
        NamedColor::Background => 0,
        NamedColor::Cursor => 7,
        NamedColor::DimBlack => 0,
        NamedColor::DimRed => 1,
        NamedColor::DimGreen => 2,
        NamedColor::DimYellow => 3,
        NamedColor::DimBlue => 4,
        NamedColor::DimMagenta => 5,
        NamedColor::DimCyan => 6,
        NamedColor::DimWhite => 7,
        NamedColor::BrightForeground => 7,
        NamedColor::DimForeground => 8,
    }
}

/// The shares of a colour.
pub open spec fn shares(color: Rgb) -> (int, int, int) {
    (color.r as int, color.g as int, color.b as int)
}

fn named_colour(index: u8) -> (color: Rgb)
    requires
        index < 16,
    ensures
        shares(color) == ansi_palette()[index as int],
{
    match index {
        0 => Rgb { r: 0, g: 0, b: 0 },
        1 => Rgb { r: 205, g: 49, b: 49 },
        2 => Rgb { r: 13, g: 188, b: 121 },
        3 => Rgb { r: 229, g: 229, b: 16 },
        4 => Rgb { r: 36, g: 114, b: 200 },
        5 => Rgb { r: 188, g: 63, b: 188 },
        6 => Rgb { r: 17, g: 168, b: 205 },
        7 => Rgb { r: 229, g: 229, b: 229 },
        8 => Rgb { r: 102, g: 102, b: 102 },
        9 => Rgb { r: 241, g: 76, b: 76 },
        10 => Rgb { r: 35, g: 209, b: 139 },
        11 => Rgb { r: 245, g: 245, b: 67 },
        12 => Rgb { r: 59, g: 142, b: 234 },
        13 => Rgb { r: 214, g: 112, b: 214 },
        14 => Rgb { r: 41, g: 184, b: 219 },
        _ => Rgb { r: 255, g: 255, b: 255 },
    }
}

fn cube_colour(step: u8) -> (share: u8)
    requires
        step < 6,
    ensures
        share == cube_share(step as int),
{
    if step == 0 {
        0
    } else {
        55 + step * 40
    }
}

/// The colour behind a colour number.
pub fn indexed_rgb(index: u8) -> (color: Rgb)
    ensures
        shares(color) == palette(index as int),
{
    if index < 16 {
        named_colour(index)
    } else if index < 232 {
        let value: u8 = index - 16;
        Rgb {
            r: cube_colour(value / 36),
            g: cube_colour(value / 6 % 6),
            b: cube_colour(value % 6),
        }
    } else {
        let shade: u8 = 8 + (index - 232) * 10;
        Rgb { r: shade, g: shade, b: shade }
    }
}

/// The colour that a name falls back to.
pub fn named_rgb(color: NamedColor) -> (rgb: Rgb)
    ensures
        shares(rgb) == palette(named_index(color) as int),
{
    let index: u8 = match color {
        NamedColor::Black => 0,
        NamedColor::Red => 1,
        NamedColor::Green => 2,
        NamedColor::Yellow => 3,
        NamedColor::Blue => 4,
        NamedColor::Magenta => 5,
        NamedColor::Cyan => 6,
        NamedColor::White => 7,
        NamedColor::BrightBlack => 8,
        NamedColor::BrightRed => 9,
        NamedColor::BrightGreen => 10,
        NamedColor::BrightYellow => 11,
        NamedColor::BrightBlue => 12,
        NamedColor::BrightMagenta => 13,
        NamedColor::BrightCyan => 14,
        NamedColor::BrightWhite => 15,
        NamedColor::Foreground => 7,
        NamedColor::Background => 0,
        NamedColor::Cursor => 7,
        NamedColor::DimBlack => 0,
        NamedColor::DimRed => 1,
        NamedColor::DimGreen => 2,
        NamedColor::DimYellow => 3,
        NamedColor::DimBlue => 4,
        NamedColor::DimMagenta => 5,
        NamedColor::DimCyan => 6,
        NamedColor::DimWhite => 7,
        NamedColor::BrightForeground => 7,
        NamedColor::DimForeground => 8,
    };
    indexed_rgb(index)
}

/// The shares of an emulator's colour, where `redefined` is what a program
/// made of it.
pub open spec fn resolved_shares(color: EmulatedColor, redefined: Option<Rgb>) -> (int, int, int) {
    match color {
        EmulatedColor::Spec(rgb) => shares(rgb),
        EmulatedColor::Indexed(index) => match redefined {
            Some(rgb) => shares(rgb),
            None => palette(index as int),
        },
        EmulatedColor::Named(name) => match redefined {
            Some(rgb) => shares(rgb),
            None => palette(named_index(name) as int),
        },
    }
}

/// Resolves an emulator's colour to its shares.
pub fn resolve_color(color: EmulatedColor, redefined: Option<Rgb>) -> (rgb: Rgb)
    ensures
        shares(rgb) == resolved_shares(color, redefined),
{
    match (color, redefined) {
        (EmulatedColor::Spec(rgb), _) => rgb,
        (_, Some(rgb)) => rgb,
        (EmulatedColor::Indexed(index), None) => indexed_rgb(index),
        (EmulatedColor::Named(name), None) => named_rgb(name),
    }
}

/// The colour that a cell is drawn in. The emulator's own foreground,
/// background and dimmed colours leave the outer terminal's colour as it is.
pub open spec fn drawn_color(color: EmulatedColor) -> Option<CellColor> {
    match color {
        EmulatedColor::Spec(rgb) => Some(CellColor::Rgb(rgb)),
        EmulatedColor::Indexed(index) => Some(CellColor::Indexed(index)),
        EmulatedColor::Named(name) => match name {
            NamedColor::Black => Some(CellColor::Black),
            NamedColor::Red => Some(CellColor::Red),
            NamedColor::Green => Some(CellColor::Green),
            NamedColor::Yellow => Some(CellColor::Yellow),
            NamedColor::Blue => Some(CellColor::Blue),
            NamedColor::Magenta => Some(CellColor::Magenta),
            NamedColor::Cyan => Some(CellColor::Cyan),
            NamedColor::White => Some(CellColor::Gray),
            NamedColor::BrightBlack => Some(CellColor::DarkGray),
            NamedColor::BrightRed => Some(CellColor::LightRed),
            NamedColor::BrightGreen => Some(CellColor::LightGreen),
            NamedColor::BrightYellow => Some(CellColor::LightYellow),
            NamedColor::BrightBlue => Some(CellColor::LightBlue),
            NamedColor::BrightMagenta => Some(CellColor::LightMagenta),
            NamedColor::BrightCyan => Some(CellColor::LightCyan),
            NamedColor::BrightWhite => Some(CellColor::White),
            _ => None,
        },
    }
}

/// The colour that a cell is drawn in.
pub fn terminal_color(color: EmulatedColor) -> (drawn: Option<CellColor>)
    ensures
        drawn == drawn_color(color),
{
    match color {
        EmulatedColor::Spec(rgb) => Some(CellColor::Rgb(rgb)),
        EmulatedColor::Indexed(index) => Some(CellColor::Indexed(index)),
        EmulatedColor::Named(name) => match name {
            NamedColor::Black => Some(CellColor::Black),
            NamedColor::Red => Some(CellColor::Red),
            NamedColor::Green => Some(CellColor::Green),
            NamedColor::Yellow => Some(CellColor::Yellow),
            NamedColor::Blue => Some(CellColor::Blue),
            NamedColor::Magenta => Some(CellColor::Magenta),
            NamedColor::Cyan => Some(CellColor::Cyan),
            NamedColor::White => Some(CellColor::Gray),
            NamedColor::BrightBlack => Some(CellColor::DarkGray),
            NamedColor::BrightRed => Some(CellColor::LightRed),
            NamedColor::BrightGreen => Some(CellColor::LightGreen),
            NamedColor::BrightYellow => Some(CellColor::LightYellow),
            NamedColor::BrightBlue => Some(CellColor::LightBlue),
            NamedColor::BrightMagenta => Some(CellColor::LightMagenta),
            NamedColor::BrightCyan => Some(CellColor::LightCyan),
            NamedColor::BrightWhite => Some(CellColor::White),
            _ => None,
        },
    }
}

/// No two colours of the cube are the same.
pub proof fn law_cube_colours_differ(first: u8, second: u8)
    requires
        16 <= first < 232,
        16 <= second < 232,
        palette(first as int) == palette(second as int),
    ensures
        first == second,
{
    let a = first - 16;
    let b = second - 16;
    assert(a / 36 == b / 36);
    assert(a / 6 % 6 == b / 6 % 6);
    assert(a % 6 == b % 6);
    assert(a / 6 / 6 == a / 36) by (nonlinear_arith);
    assert(b / 6 / 6 == b / 36) by (nonlinear_arith);
}

} // verus!
