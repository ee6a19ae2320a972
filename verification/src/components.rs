//! Per-object visual components: the virtual cell pushed onto a host visual
//! object, the cursor overlay, the blink trackers, and the derived visual
//! effects (reverse video, dim, hidden, underline and strike-through marks,
//! blink) computed from a cell's style attributes.

use vstd::prelude::*;
use vstd::string::StringExecFns;

use crate::cell::Cell;
use crate::color::{dim_color, map_color, spec_dim, spec_map_color, NativeColor};

verus! {

/// Which of the four font assets a cell's text is set in.
#[derive(Clone, Copy, PartialEq, Eq, Structural, Debug)]
pub enum FontStyle {
    Normal,
    Italic,
    Bold,
    ItalicBold,
}

/// The font style a cell's bold and italic attributes select.
pub open spec fn spec_font_style(bold: bool, italic: bool) -> FontStyle {
    if bold && italic {
        FontStyle::ItalicBold
    } else if bold {
        FontStyle::Bold
    } else if italic {
        FontStyle::Italic
    } else {
        FontStyle::Normal
    }
}

/// Picks the font style for a cell's bold and italic attributes.
pub fn font_style_for(bold: bool, italic: bool) -> (style: FontStyle)
    ensures
        style == spec_font_style(bold, italic),
{
    if bold && italic {
        FontStyle::ItalicBold
    } else if bold {
        FontStyle::Bold
    } else if italic {
        FontStyle::Italic
    } else {
        FontStyle::Normal
    }
}

/// The cursor overlay: a single grid position, independent of the identity
/// map.
#[derive(Clone, Copy, PartialEq, Eq, Debug)]
pub struct Cursor {
    pub pos: (u16, u16),
}

/// Blink tracker for a slowly blinking cell: whether the object currently
/// shows its background (in blink) and the foreground to restore.
#[derive(Clone, Copy, PartialEq, Eq, Structural, Debug)]
pub struct SlowBlink {
    pub in_blink: bool,
    pub true_color: NativeColor,
}

/// Blink tracker for a rapidly blinking cell.
#[derive(Clone, Copy, PartialEq, Eq, Structural, Debug)]
pub struct RapidBlink {
    pub in_blink: bool,
    pub true_color: NativeColor,
}

impl SlowBlink {
    /// One blink period elapsed: toggles the phase and returns the
    /// foreground to show now — the background while in blink, the true
    /// color otherwise.
    pub fn tick(&mut self, background: NativeColor) -> (shown: NativeColor)
        ensures
            final(self).true_color == old(self).true_color,
            final(self).in_blink == !old(self).in_blink,
            shown == (if old(self).in_blink {
                background
            } else {
                old(self).true_color
            }),
    {
        if self.in_blink {
            self.in_blink = false;
            background
        } else {
            self.in_blink = true;
            self.true_color
        }
    }
}

impl RapidBlink {
    /// One blink period elapsed: toggles the phase and returns the
    /// foreground to show now.
    pub fn tick(&mut self, background: NativeColor) -> (shown: NativeColor)
        ensures
            final(self).true_color == old(self).true_color,
            final(self).in_blink == !old(self).in_blink,
            shown == (if old(self).in_blink {
                background
            } else {
                old(self).true_color
            }),
    {
        if self.in_blink {
            self.in_blink = false;
            background
        } else {
            self.in_blink = true;
            self.true_color
        }
    }
}

/// The per-coordinate visual state pushed onto a host visual object: the
/// glyph, the mapped colors and the raw style attributes of the cell last
/// drawn there, plus the coordinate itself.
#[derive(Debug)]
pub struct VirtualCell {
    pub symbol: String,
    pub fg: NativeColor,
    pub bg: NativeColor,
    pub underline_color: NativeColor,
    pub skip: bool,
    pub bold: bool,
    pub dim: bool,
    pub italic: bool,
    pub underlined: bool,
    pub slow_blink: bool,
    pub rapid_blink: bool,
    pub reversed: bool,
    pub hidden: bool,
    pub crossed_out: bool,
    pub row: u16,
    pub column: u16,
}

/// Derived foreground and background of a virtual cell: reverse video swaps
/// the pair, dim darkens both by the fixed factor, and hidden draws the
/// foreground in the background color (invisible text, layout preserved).
pub open spec fn spec_proper_fg_bg(v: VirtualCell) -> (NativeColor, NativeColor) {
    let fg1 = if v.reversed {
        v.bg
    } else {
        v.fg
    };
    let bg1 = if v.reversed {
        v.fg
    } else {
        v.bg
    };
    let fg2 = if v.dim {
        spec_dim(fg1)
    } else {
        fg1
    };
    let bg2 = if v.dim {
        spec_dim(bg1)
    } else {
        bg1
    };
    if v.hidden {
        (bg2, bg2)
    } else {
        (fg2, bg2)
    }
}

/// Derived glyph of a virtual cell: the raw glyph with a combining low line
/// appended when underlined and a combining long stroke overlay appended
/// when crossed out.
pub open spec fn spec_proper_symbol(sym: Seq<char>, underlined: bool, crossed_out: bool) -> Seq<
    char,
> {
    let with_underline = if underlined {
        sym + "\u{332}"@
    } else {
        sym
    };
    if crossed_out {
        with_underline + "\u{336}"@
    } else {
        with_underline
    }
}

/// Builds the derived glyph: the raw glyph with the combining low line
/// (U+0332) appended when underlined and the combining long stroke overlay
/// (U+0336) appended when crossed out — combining marks instead of native
/// style properties, for backend-agnostic portability.
pub fn styled_symbol(symbol: &String, underlined: bool, crossed_out: bool) -> (sym: String)
    ensures
        sym@ == spec_proper_symbol(symbol@, underlined, crossed_out),
{
    let mut sym = symbol.clone();
    if underlined {
        sym.append("\u{332}");
    }
    if crossed_out {
        sym.append("\u{336}");
    }
    sym
}

impl VirtualCell {
    /// A fresh virtual cell for a coordinate, before any draw reaches it:
    /// a box-drawing placeholder glyph in white on black.
    pub fn new(x: u16, y: u16) -> (v: VirtualCell)
        ensures
            v.symbol@ == "\u{256c}"@,
            v.fg == (NativeColor { r: 255, g: 255, b: 255 }),
            v.bg == (NativeColor { r: 0, g: 0, b: 0 }),
            v.underline_color == (NativeColor { r: 255, g: 255, b: 255 }),
            !v.skip,
            !v.bold,
            !v.dim,
            !v.italic,
            !v.underlined,
            !v.slow_blink,
            !v.rapid_blink,
            !v.reversed,
            !v.hidden,
            !v.crossed_out,
            v.row == y,
            v.column == x,
    {
        VirtualCell {
            symbol: String::from_str("\u{256c}"),
            fg: NativeColor { r: 255, g: 255, b: 255 },
            bg: NativeColor { r: 0, g: 0, b: 0 },
            underline_color: NativeColor { r: 255, g: 255, b: 255 },
            skip: false,
            bold: false,
            dim: false,
            italic: false,
            underlined: false,
            slow_blink: false,
            rapid_blink: false,
            reversed: false,
            hidden: false,
            crossed_out: false,
            row: y,
            column: x,
        }
    }

    /// The derived foreground and background of this cell.
    pub fn proper_fg_bg(&self) -> (colors: (NativeColor, NativeColor))
        ensures
            colors == spec_proper_fg_bg(*self),
    {
        let fg1 = if self.reversed {
            self.bg
        } else {
            self.fg
        };
        let bg1 = if self.reversed {
            self.fg
        } else {
            self.bg
        };
        let fg2 = if self.dim {
            dim_color(fg1)
        } else {
            fg1
        };
        let bg2 = if self.dim {
            dim_color(bg1)
        } else {
            bg1
        };
        if self.hidden {
            (bg2, bg2)
        } else {
            (fg2, bg2)
        }
    }

    /// The derived glyph of this cell, combining marks appended.
    pub fn proper_symbol(&self) -> (sym: String)
        ensures
            sym@ == spec_proper_symbol(self.symbol@, self.underlined, self.crossed_out),
    {
        styled_symbol(&self.symbol, self.underlined, self.crossed_out)
    }
}

/// Conversion from a drawn cell to the virtual cell pushed onto a visual
/// object: the glyph is carried over, the colors are mapped to the host
/// palette, and each style attribute is copied.
pub trait FromRatCell {
    /// Builds the virtual cell for the cell drawn at (x, y).
    fn to_virtual(x: u16, y: u16, given_cell: &Cell) -> (v: VirtualCell)
        ensures
            v.symbol@ == given_cell.symbol@,
            v.fg == spec_map_color(given_cell.fg, true),
            v.bg == spec_map_color(given_cell.bg, false),
            v.underline_color == spec_map_color(given_cell.fg, true),
            v.skip == given_cell.skip,
            v.bold == given_cell.bold,
            v.dim == given_cell.dim,
            v.italic == given_cell.italic,
            v.underlined == given_cell.underlined,
            v.slow_blink == given_cell.slow_blink,
            v.rapid_blink == given_cell.rapid_blink,
            v.reversed == given_cell.reversed,
            v.hidden == given_cell.hidden,
            v.crossed_out == given_cell.crossed_out,
            v.row == y,
            v.column == x,
    ;
}

impl FromRatCell for VirtualCell {
    fn to_virtual(x: u16, y: u16, given_cell: &Cell) -> (v: VirtualCell) {
        VirtualCell {
            symbol: given_cell.symbol.clone(),
            fg: map_color(given_cell.fg, true),
            bg: map_color(given_cell.bg, false),
            underline_color: map_color(given_cell.fg, true),
            skip: given_cell.skip,
            bold: given_cell.bold,
            dim: given_cell.dim,
            italic: given_cell.italic,
            underlined: given_cell.underlined,
            slow_blink: given_cell.slow_blink,
            rapid_blink: given_cell.rapid_blink,
            reversed: given_cell.reversed,
            hidden: given_cell.hidden,
            crossed_out: given_cell.crossed_out,
            row: y,
            column: x,
        }
    }
}

} // verus!
