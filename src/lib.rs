//! A terminal-like grid of styled character cells, laid out as text placed
//! on a 2D screen.
//!
//! A `VirtualTerminal` holds the grid's extent, its font size and the colours
//! new cells start with. A `CellGrid` owns one `VirtualCell` for each
//! (row, column) pair, and `layout` turns the cells that are drawn into render
//! requests whose screen positions follow from the coordinates and font size.

mod cell;
mod color;
mod grid;
mod layout;
mod terminal;

pub use cell::{inherited_style, placeholder_glyph, CellStyle, VirtualCell};
pub use color::Rgba;
pub use grid::{
    cell_index, column_major, covers_exactly, has_cell_at, lemma_grid_covers_extent, CellGrid,
};
pub use layout::{
    drawn_cells, is_drawn, is_layout_of, layout, lemma_empty_extent_draws_nothing,
    lemma_layout_is_repeatable, lemma_position_follows_coordinates,
    lemma_unskipped_cells_all_drawn, placed_at, renders, screen_position, RenderRequest,
    ScreenPosition,
};
pub use terminal::VirtualTerminal;
