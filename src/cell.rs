use vstd::prelude::*;

use crate::color::Rgba;

verus! {

/// The text attributes of one cell. Only the colours and `skip` affect
/// layout; the remaining flags are carried for renderers that draw them.
#[derive(Clone, Copy, Debug, PartialEq, Eq, Structural)]
pub struct CellStyle {
    pub foreground: Rgba,
    pub background: Rgba,
    pub underline_color: Option<Rgba>,
    /// A skipped cell is kept in the grid but not rendered.
    pub skip: bool,
    pub bold: bool,
    pub dim: bool,
    pub italic: bool,
    pub underlined: bool,
    pub slow_blink: bool,
    pub rapid_blink: bool,
    pub reversed: bool,
    pub hidden: bool,
    pub crossed_out: bool,
}

/// The style a cell starts with: the given colours, no underline colour and
/// every flag cleared.
pub open spec fn inherited_style(foreground: Rgba, background: Rgba) -> CellStyle {
    CellStyle {
        foreground,
        background,
        underline_color: None,
        skip: false,
        bold: false,
        dim: false,
        italic: false,
        underlined: false,
        slow_blink: false,
        rapid_blink: false,
        reversed: false,
        hidden: false,
        crossed_out: false,
    }
}

impl CellStyle {
    /// The style of a new cell with the given colours.
    pub fn inherited(foreground: Rgba, background: Rgba) -> (s: CellStyle)
        ensures
            s == inherited_style(foreground, background),
    {
        CellStyle {
            foreground,
            background,
            underline_color: None,
            skip: false,
            bold: false,
            dim: false,
            italic: false,
            underlined: false,
            slow_blink: false,
            rapid_blink: false,
            reversed: false,
            hidden: false,
            crossed_out: false,
        }
    }
}

/// The glyph a new cell shows: a box-drawing double cross.
pub open spec fn placeholder_glyph() -> Seq<char> {
    seq!['\u{256C}']
}

/// One character cell of a grid: its glyph, its style and its coordinates.
#[derive(Debug)]
pub struct VirtualCell {
    pub symbol: String,
    pub style: CellStyle,
    pub row: u16,
    pub column: u16,
}

impl VirtualCell {
    /// A cell at (`row`, `column`) showing the placeholder glyph, in the given
    /// colours with every other attribute at its default.
    pub fn new(column: u16, row: u16, foreground: Rgba, background: Rgba) -> (c: VirtualCell)
        ensures
            c.symbol@ == placeholder_glyph(),
            c.style == inherited_style(foreground, background),
            c.row == row,
            c.column == column,
    {
        let symbol = String::from_str("\u{256C}");
        proof {
            reveal_strlit("\u{256C}");
        }
        assert(symbol@ =~= placeholder_glyph());
        VirtualCell { symbol, style: CellStyle::inherited(foreground, background), row, column }
    }
}

} // verus!
