use vstd::prelude::*;

use crate::color::Rgba;

verus! {

/// The settings that govern a grid: its extent, its font size in pixels and
/// the colours that every newly created cell starts with.
///
/// Cells copy the default colours when they are created; changing a terminal
/// afterwards does not restyle cells that already exist.
#[derive(Clone, Copy, Debug, PartialEq, Eq, Structural)]
pub struct VirtualTerminal {
    pub rows: u16,
    pub columns: u16,
    /// Glyph height in pixels; the horizontal pitch between columns is half
    /// of it.
    pub font_size: u32,
    pub default_foreground: Rgba,
    pub default_background: Rgba,
}

impl VirtualTerminal {
    /// A terminal with the given extent, font size and default colours. Any
    /// values are accepted: a zero extent gives an empty grid.
    pub fn new(
        rows: u16,
        columns: u16,
        font_size: u32,
        default_foreground: Rgba,
        default_background: Rgba,
    ) -> (t: VirtualTerminal)
        ensures
            t == (VirtualTerminal {
                rows,
                columns,
                font_size,
                default_foreground,
                default_background,
            }),
    {
        VirtualTerminal { rows, columns, font_size, default_foreground, default_background }
    }
}

impl Default for VirtualTerminal {
    /// Ten rows of five columns at font size 40, white on gray.
    fn default() -> (t: VirtualTerminal)
        ensures
            t.rows == 10,
            t.columns == 5,
            t.font_size == 40,
            t.default_foreground == Rgba::white_spec(),
            t.default_background == Rgba::gray_spec(),
    {
        VirtualTerminal::new(10, 5, 40, Rgba::white(), Rgba::gray())
    }
}

} // verus!
