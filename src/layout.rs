use vstd::arithmetic::div_mod::lemma_fundamental_div_mod_converse;
use vstd::prelude::*;

use crate::cell::VirtualCell;
use crate::grid::{cell_index, CellGrid};
use crate::terminal::VirtualTerminal;

verus! {

/// A place on screen, measured in half-pixels from the bottom and the left
/// edge. Columns are half a font size apart, so half-pixels keep every
/// position exact whatever the font size.
#[derive(Clone, Copy, Debug, PartialEq, Eq, Structural)]
pub struct ScreenPosition {
    pub bottom_half_px: u64,
    pub left_half_px: u64,
}

/// `p` is where the cell at (`row`, `column`) goes at font size `font_size`:
/// `row * font_size` pixels up and `column * font_size / 2` pixels right.
pub open spec fn placed_at(p: ScreenPosition, row: int, column: int, font_size: int) -> bool {
    &&& p.bottom_half_px == 2 * (row * font_size)
    &&& p.left_half_px == column * font_size
}

/// The screen position of the cell at (`row`, `column`): one font size per
/// row, half a font size per column.
pub fn screen_position(row: u16, column: u16, font_size: u32) -> (p: ScreenPosition)
    ensures
        placed_at(p, row as int, column as int, font_size as int),
{
    let f = font_size as u64;
    proof {
        assert(row as u64 * f <= 0xffff * 0xffff_ffff) by (nonlinear_arith)
            requires
                row <= 0xffff,
                f <= 0xffff_ffff,
        ;
        assert(column as u64 * f <= 0xffff * 0xffff_ffff) by (nonlinear_arith)
            requires
                column <= 0xffff,
                f <= 0xffff_ffff,
        ;
    }
    ScreenPosition { bottom_half_px: 2 * (row as u64 * f), left_half_px: column as u64 * f }
}

/// What the renderer is asked to draw for one cell: its glyph, at the
/// terminal's font size, centred on the given position.
#[derive(Debug)]
pub struct RenderRequest {
    pub symbol: String,
    pub font_size: u32,
    pub position: ScreenPosition,
}

/// A cell is drawn unless it is marked to be skipped.
pub open spec fn is_drawn(c: VirtualCell) -> bool {
    !c.style.skip
}

/// The cells that are drawn, in grid order.
pub open spec fn drawn_cells(cells: Seq<VirtualCell>) -> Seq<VirtualCell> {
    cells.filter(|c: VirtualCell| is_drawn(c))
}

/// `req` draws `cell` at font size `font_size`.
pub open spec fn renders(req: RenderRequest, cell: VirtualCell, font_size: u32) -> bool {
    &&& req.symbol@ == cell.symbol@
    &&& req.font_size == font_size
    &&& placed_at(req.position, cell.row as int, cell.column as int, font_size as int)
}

/// `reqs` holds one request for each drawn cell of `cells`, in grid order.
pub open spec fn is_layout_of(reqs: Seq<RenderRequest>, cells: Seq<VirtualCell>, font_size: u32) -> bool {
    let drawn = drawn_cells(cells);
    &&& reqs.len() == drawn.len()
    &&& forall|k: int| 0 <= k < reqs.len() ==> renders(#[trigger] reqs[k], drawn[k], font_size)
}

proof fn lemma_drawn_cells_push(cells: Seq<VirtualCell>, c: VirtualCell)
    ensures
        drawn_cells(cells.push(c)) == if is_drawn(c) {
            drawn_cells(cells).push(c)
        } else {
            drawn_cells(cells)
        },
{
    cells.lemma_filter_push(c, |c: VirtualCell| is_drawn(c));
}

/// Where no cell is skipped, every cell is drawn, in grid order; so a
/// freshly built grid is laid out with one request per cell.
pub proof fn lemma_unskipped_cells_all_drawn(cells: Seq<VirtualCell>)
    requires
        forall|i: int| 0 <= i < cells.len() ==> is_drawn(#[trigger] cells[i]),
    ensures
        drawn_cells(cells) == cells,
    decreases cells.len(),
{
    if cells.len() > 0 {
        let rest = cells.drop_last();
        assert(forall|i: int| 0 <= i < rest.len() ==> rest[i] == cells[i]);
        lemma_unskipped_cells_all_drawn(rest);
        assert(rest.push(cells.last()) =~= cells);
        lemma_drawn_cells_push(rest, cells.last());
    } else {
        assert(drawn_cells(cells) =~= cells) by {
            reveal(Seq::filter);
        }
    }
}

/// One render request for every drawn cell of the grid, at the terminal's
/// font size, each placed from its cell's own coordinates.
pub fn layout(grid: &CellGrid, terminal: &VirtualTerminal) -> (reqs: Vec<RenderRequest>)
    ensures
        is_layout_of(reqs@, grid@, terminal.font_size),
{
    let font_size = terminal.font_size;
    let cells = grid.cells();
    let mut reqs: Vec<RenderRequest> = Vec::new();
    let n = cells.len();
    for i in 0..n
        invariant
            n == cells@.len(),
            cells@ == grid@,
            font_size == terminal.font_size,
            is_layout_of(reqs@, cells@.take(i as int), font_size),
    {
        let cell = &cells[i];
        proof {
            assert(cells@.take(i + 1) =~= cells@.take(i as int).push(cells@[i as int]));
            lemma_drawn_cells_push(cells@.take(i as int), cells@[i as int]);
        }
        if !cell.style.skip {
            let req = RenderRequest {
                symbol: cell.symbol.clone(),
                font_size,
                position: screen_position(cell.row, cell.column, font_size),
            };
            reqs.push(req);
        }
    }
    assert(cells@.take(n as int) =~= cells@);
    reqs
}

/// A grid with no row or no column holds no cell, and laying it out asks
/// for nothing to be drawn.
pub proof fn lemma_empty_extent_draws_nothing(
    grid: &CellGrid,
    font_size: u32,
    reqs: Seq<RenderRequest>,
)
    requires
        grid.wf(),
        grid.spec_rows() == 0 || grid.spec_columns() == 0,
        is_layout_of(reqs, grid@, font_size),
    ensures
        grid@.len() == 0,
        reqs.len() == 0,
{
    let rows = grid.spec_rows();
    let columns = grid.spec_columns();
    assert(rows * columns == 0) by (nonlinear_arith)
        requires
            rows == 0 || columns == 0,
    ;
    grid@.lemma_filter_len(|c: VirtualCell| is_drawn(c));
}

/// The cell at (`row`, `column`), where it is drawn, is drawn at
/// `row * font_size` pixels from the bottom and `column * font_size / 2`
/// pixels from the left: the position follows from the coordinates alone,
/// whatever order the cells were created in.
pub proof fn lemma_position_follows_coordinates(
    grid: &CellGrid,
    font_size: u32,
    reqs: Seq<RenderRequest>,
    row: int,
    column: int,
)
    requires
        grid.wf(),
        is_layout_of(reqs, grid@, font_size),
        0 <= row < grid.spec_rows(),
        0 <= column < grid.spec_columns(),
        is_drawn(grid@[cell_index(row, column, grid.spec_rows() as int)]),
    ensures
        exists|k: int|
            0 <= k < reqs.len() && (#[trigger] reqs[k]).symbol@ == grid@[cell_index(
                row,
                column,
                grid.spec_rows() as int,
            )].symbol@ && reqs[k].font_size == font_size && reqs[k].position.bottom_half_px == 2
                * (row * font_size) && reqs[k].position.left_half_px == column * font_size,
{
    let rows = grid.spec_rows() as int;
    let columns = grid.spec_columns() as int;
    let i = cell_index(row, column, rows);
    lemma_fundamental_div_mod_converse(i, rows, column, row);
    assert(i < rows * columns) by (nonlinear_arith)
        requires
            i == column * rows + row,
            0 <= row < rows,
            0 <= column < columns,
    ;
    let cell = grid@[i];
    assert(cell.row == row && cell.column == column);
    grid@.lemma_filter_contains(|c: VirtualCell| is_drawn(c), i);
    let drawn = drawn_cells(grid@);
    assert(drawn.contains(cell));
    let k = choose|k: int| 0 <= k < drawn.len() && drawn[k] == cell;
    assert(renders(reqs[k], drawn[k], font_size));
}

/// Laying out an unchanged grid again gives the same requests: the same
/// glyphs, font sizes and positions, in the same order.
pub proof fn lemma_layout_is_repeatable(
    grid: &CellGrid,
    terminal: &VirtualTerminal,
    first: Seq<RenderRequest>,
    second: Seq<RenderRequest>,
)
    requires
        is_layout_of(first, grid@, terminal.font_size),
        is_layout_of(second, grid@, terminal.font_size),
    ensures
        first.len() == second.len(),
        forall|k: int|
            0 <= k < first.len() ==> (#[trigger] first[k]).position == second[k].position
                && first[k].symbol@ == second[k].symbol@ && first[k].font_size
                == second[k].font_size,
{
    assert forall|k: int| 0 <= k < first.len() implies (#[trigger] first[k]).position
        == second[k].position && first[k].symbol@ == second[k].symbol@ && first[k].font_size
        == second[k].font_size by {
        assert(renders(first[k], drawn_cells(grid@)[k], terminal.font_size));
        assert(renders(second[k], drawn_cells(grid@)[k], terminal.font_size));
    }
}

} // verus!
