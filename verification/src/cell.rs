//! The styled character cell: one grid position's glyph, colors, style
//! attributes, and skip flag.

use vstd::prelude::*;

use crate::color::Color;

verus! {

/// One cell of the grid.  The glyph is a display string (possibly several
/// codepoints after combining marks); the attributes are the closed set of
/// terminal text styles; `skip` marks a cell that is intentionally not drawn
/// (for example the second half of a wide glyph).
#[verifier::ext_equal]
#[derive(Debug)]
pub struct Cell {
    pub symbol: String,
    pub fg: Color,
    pub bg: Color,
    pub skip: bool,
    pub bold: bool,
    pub dim: bool,
    pub italic: bool,
    pub underlined: bool,
    pub slow_blink: bool,
    pub rapid_blink: bool,
    pub reversed: bool,
    pub hidden: bool,
    pub crossed_out: bool,
}

/// The default blank cell: a single space, reset colors, no attributes, not
/// skipped.  Resets, resizes and region clears fill with cells of this shape.
pub open spec fn is_default_cell(c: Cell) -> bool {
    &&& c.symbol@ == " "@
    &&& c.fg == Color::Reset
    &&& c.bg == Color::Reset
    &&& !c.skip
    &&& !c.bold
    &&& !c.dim
    &&& !c.italic
    &&& !c.underlined
    &&& !c.slow_blink
    &&& !c.rapid_blink
    &&& !c.reversed
    &&& !c.hidden
    &&& !c.crossed_out
}

impl Cell {
    /// Builds the default blank cell.
    pub fn default_cell() -> (c: Cell)
        ensures
            is_default_cell(c),
    {
        Cell {
            symbol: String::from_str(" "),
            fg: Color::Reset,
            bg: Color::Reset,
            skip: false,
            bold: false,
            dim: false,
            italic: false,
            underlined: false,
            slow_blink: false,
            rapid_blink: false,
            reversed: false,
            hidden: false,
            crossed_out: false,
        }
    }
}

impl Clone for Cell {
    /// A clone is equal to the original, glyph included.
    fn clone(&self) -> (res: Self)
        ensures
            res == *self,
    {
        let res = Cell {
            symbol: self.symbol.clone(),
            fg: self.fg,
            bg: self.bg,
            skip: self.skip,
            bold: self.bold,
            dim: self.dim,
            italic: self.italic,
            underlined: self.underlined,
            slow_blink: self.slow_blink,
            rapid_blink: self.rapid_blink,
            reversed: self.reversed,
            hidden: self.hidden,
            crossed_out: self.crossed_out,
        };
        proof {
            assert(res =~= *self);
        }
        res
    }
}

impl Default for Cell {
    fn default() -> (c: Self)
        ensures
            is_default_cell(c),
    {
        Cell::default_cell()
    }
}

} // verus!
