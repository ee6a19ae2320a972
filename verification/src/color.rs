//! Color and style mapping: a pure, total function from the abstract
//! terminal palette to host-native RGB colors.

use vstd::prelude::*;

verus! {

/// Abstract color of a cell, as the terminal-style producer speaks of it:
/// a closed named palette, a 256-color index, or a true-color triple.
#[derive(Clone, Copy, PartialEq, Eq, Structural, Debug)]
pub enum Color {
    Reset,
    Black,
    Red,
    Green,
    Yellow,
    Blue,
    Magenta,
    Cyan,
    Gray,
    DarkGray,
    LightRed,
    LightGreen,
    LightBlue,
    LightYellow,
    LightMagenta,
    LightCyan,
    White,
    Indexed(u8),
    Rgb(u8, u8, u8),
}

/// Host-native color: a plain RGB triple.
#[derive(Clone, Copy, PartialEq, Eq, Structural, Debug)]
pub struct NativeColor {
    pub r: u8,
    pub g: u8,
    pub b: u8,
}

/// The scene-engine palette: named colors map to fixed, visually distinct
/// equivalents; `Reset` stays visible on any canvas (white as a foreground,
/// dark gray as a background); an indexed color falls back to a gray level;
/// a true-color triple passes through unchanged.
pub open spec fn spec_map_color(color: Color, is_fg: bool) -> NativeColor {
    match color {
        Color::Reset => if is_fg {
            NativeColor { r: 255, g: 255, b: 255 }
        } else {
            NativeColor { r: 64, g: 64, b: 64 }
        },
        Color::Black => NativeColor { r: 0, g: 0, b: 0 },
        Color::Red => NativeColor { r: 128, g: 0, b: 0 },
        Color::Green => NativeColor { r: 0, g: 100, b: 0 },
        Color::Yellow => NativeColor { r: 255, g: 215, b: 0 },
        Color::Blue => NativeColor { r: 25, g: 25, b: 112 },
        Color::Magenta => NativeColor { r: 255, g: 0, b: 255 },
        Color::Cyan => NativeColor { r: 0, g: 255, b: 255 },
        Color::Gray => NativeColor { r: 128, g: 128, b: 128 },
        Color::DarkGray => NativeColor { r: 64, g: 64, b: 64 },
        Color::LightRed => NativeColor { r: 255, g: 0, b: 0 },
        Color::LightGreen => NativeColor { r: 0, g: 255, b: 0 },
        Color::LightBlue => NativeColor { r: 0, g: 0, b: 255 },
        Color::LightYellow => NativeColor { r: 255, g: 228, b: 196 },
        Color::LightMagenta => NativeColor { r: 255, g: 192, b: 203 },
        Color::LightCyan => NativeColor { r: 127, g: 255, b: 212 },
        Color::White => NativeColor { r: 255, g: 255, b: 255 },
        Color::Indexed(i) => NativeColor { r: i, g: i, b: i },
        Color::Rgb(r, g, b) => NativeColor { r: r, g: g, b: b },
    }
}

/// Maps an abstract color to the scene-engine palette.  Total: every input
/// has a defined image, there is no error case.
pub fn map_color(color: Color, is_fg: bool) -> (res: NativeColor)
    ensures
        res == spec_map_color(color, is_fg),
{
    match color {
        Color::Reset => if is_fg {
            NativeColor { r: 255, g: 255, b: 255 }
        } else {
            NativeColor { r: 64, g: 64, b: 64 }
        },
        Color::Black => NativeColor { r: 0, g: 0, b: 0 },
        Color::Red => NativeColor { r: 128, g: 0, b: 0 },
        Color::Green => NativeColor { r: 0, g: 100, b: 0 },
        Color::Yellow => NativeColor { r: 255, g: 215, b: 0 },
        Color::Blue => NativeColor { r: 25, g: 25, b: 112 },
        Color::Magenta => NativeColor { r: 255, g: 0, b: 255 },
        Color::Cyan => NativeColor { r: 0, g: 255, b: 255 },
        Color::Gray => NativeColor { r: 128, g: 128, b: 128 },
        Color::DarkGray => NativeColor { r: 64, g: 64, b: 64 },
        Color::LightRed => NativeColor { r: 255, g: 0, b: 0 },
        Color::LightGreen => NativeColor { r: 0, g: 255, b: 0 },
        Color::LightBlue => NativeColor { r: 0, g: 0, b: 255 },
        Color::LightYellow => NativeColor { r: 255, g: 228, b: 196 },
        Color::LightMagenta => NativeColor { r: 255, g: 192, b: 203 },
        Color::LightCyan => NativeColor { r: 127, g: 255, b: 212 },
        Color::White => NativeColor { r: 255, g: 255, b: 255 },
        Color::Indexed(i) => NativeColor { r: i, g: i, b: i },
        Color::Rgb(r, g, b) => NativeColor { r: r, g: g, b: b },
    }
}

/// The tile-engine palette: the same scheme with that engine's named color
/// equivalents.
pub open spec fn spec_map_color_tile(color: Color, is_fg: bool) -> NativeColor {
    match color {
        Color::Reset => if is_fg {
            NativeColor { r: 255, g: 255, b: 255 }
        } else {
            NativeColor { r: 169, g: 169, b: 169 }
        },
        Color::Black => NativeColor { r: 0, g: 0, b: 0 },
        Color::Red => NativeColor { r: 139, g: 0, b: 0 },
        Color::Green => NativeColor { r: 0, g: 100, b: 0 },
        Color::Yellow => NativeColor { r: 184, g: 134, b: 11 },
        Color::Blue => NativeColor { r: 0, g: 0, b: 139 },
        Color::Magenta => NativeColor { r: 139, g: 0, b: 139 },
        Color::Cyan => NativeColor { r: 0, g: 139, b: 139 },
        Color::Gray => NativeColor { r: 128, g: 128, b: 128 },
        Color::DarkGray => NativeColor { r: 169, g: 169, b: 169 },
        Color::LightRed => NativeColor { r: 255, g: 0, b: 0 },
        Color::LightGreen => NativeColor { r: 0, g: 255, b: 0 },
        Color::LightBlue => NativeColor { r: 0, g: 0, b: 255 },
        Color::LightYellow => NativeColor { r: 255, g: 228, b: 196 },
        Color::LightMagenta => NativeColor { r: 238, g: 0, b: 238 },
        Color::LightCyan => NativeColor { r: 127, g: 255, b: 212 },
        Color::White => NativeColor { r: 255, g: 255, b: 255 },
        Color::Indexed(i) => NativeColor { r: i, g: i, b: i },
        Color::Rgb(r, g, b) => NativeColor { r: r, g: g, b: b },
    }
}

/// Maps an abstract color to the tile-engine palette.  Total as well.
pub fn map_color_tile(color: Color, is_fg: bool) -> (res: NativeColor)
    ensures
        res == spec_map_color_tile(color, is_fg),
{
    match color {
        Color::Reset => if is_fg {
            NativeColor { r: 255, g: 255, b: 255 }
        } else {
            NativeColor { r: 169, g: 169, b: 169 }
        },
        Color::Black => NativeColor { r: 0, g: 0, b: 0 },
        Color::Red => NativeColor { r: 139, g: 0, b: 0 },
        Color::Green => NativeColor { r: 0, g: 100, b: 0 },
        Color::Yellow => NativeColor { r: 184, g: 134, b: 11 },
        Color::Blue => NativeColor { r: 0, g: 0, b: 139 },
        Color::Magenta => NativeColor { r: 139, g: 0, b: 139 },
        Color::Cyan => NativeColor { r: 0, g: 139, b: 139 },
        Color::Gray => NativeColor { r: 128, g: 128, b: 128 },
        Color::DarkGray => NativeColor { r: 169, g: 169, b: 169 },
        Color::LightRed => NativeColor { r: 255, g: 0, b: 0 },
        Color::LightGreen => NativeColor { r: 0, g: 255, b: 0 },
        Color::LightBlue => NativeColor { r: 0, g: 0, b: 255 },
        Color::LightYellow => NativeColor { r: 255, g: 228, b: 196 },
        Color::LightMagenta => NativeColor { r: 238, g: 0, b: 238 },
        Color::LightCyan => NativeColor { r: 127, g: 255, b: 212 },
        Color::White => NativeColor { r: 255, g: 255, b: 255 },
        Color::Indexed(i) => NativeColor { r: i, g: i, b: i },
        Color::Rgb(r, g, b) => NativeColor { r: r, g: g, b: b },
    }
}

/// One channel of the dimming transform: perceptual lightness reduced by a
/// fixed factor of nine tenths, in integer arithmetic.
pub open spec fn spec_dim_channel(c: u8) -> u8 {
    ((c as int) * 9 / 10) as u8
}

/// A color with every channel dimmed by the fixed factor.
pub open spec fn spec_dim(c: NativeColor) -> NativeColor {
    NativeColor { r: spec_dim_channel(c.r), g: spec_dim_channel(c.g), b: spec_dim_channel(c.b) }
}

/// Dims a host-native color by the fixed factor of nine tenths per channel.
pub fn dim_color(c: NativeColor) -> (res: NativeColor)
    ensures
        res == spec_dim(c),
{
    let r: u32 = (c.r as u32) * 9 / 10;
    let g: u32 = (c.g as u32) * 9 / 10;
    let b: u32 = (c.b as u32) * 9 / 10;
    NativeColor { r: r as u8, g: g as u8, b: b as u8 }
}

} // verus!
