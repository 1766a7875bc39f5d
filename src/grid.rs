use vstd::arithmetic::div_mod::lemma_fundamental_div_mod_converse;
use vstd::arithmetic::div_mod::lemma_fundamental_div_mod;
use vstd::arithmetic::div_mod::lemma_mod_pos_bound;
use vstd::prelude::*;

use crate::cell::{inherited_style, placeholder_glyph, CellStyle, VirtualCell};
use crate::terminal::VirtualTerminal;

verus! {

/// Where the cell at (`row`, `column`) sits in a grid with `rows` rows: cells
/// are stored column by column.
pub open spec fn cell_index(row: int, column: int, rows: int) -> int {
    column * rows + row
}

/// The storage order of a grid: `rows * columns` cells, column by column,
/// each holding the coordinates of its own slot.
pub open spec fn column_major(cells: Seq<VirtualCell>, rows: nat, columns: nat) -> bool {
    &&& cells.len() == rows * columns
    &&& forall|i: int|
        0 <= i < cells.len() ==> #[trigger] cells[i].row == i % (rows as int) && cells[i].column
            == i / (rows as int)
}

/// Every cell lies inside the extent, no two cells share a coordinate pair,
/// and every pair in `[0, rows) x [0, columns)` has a cell.
pub open spec fn covers_exactly(cells: Seq<VirtualCell>, rows: nat, columns: nat) -> bool {
    &&& cells.len() == rows * columns
    &&& forall|i: int|
        0 <= i < cells.len() ==> #[trigger] cells[i].row < rows && cells[i].column < columns
    &&& forall|i: int, j: int|
        0 <= i < cells.len() && 0 <= j < cells.len() && i != j ==> !(#[trigger] cells[i].row
            == #[trigger] cells[j].row && cells[i].column == cells[j].column)
    &&& forall|r: int, c: int|
        0 <= r < rows && 0 <= c < columns ==> #[trigger] has_cell_at(cells, r, c)
}

/// Some cell of `cells` has the coordinates (`row`, `column`).
pub open spec fn has_cell_at(cells: Seq<VirtualCell>, row: int, column: int) -> bool {
    exists|i: int| 0 <= i < cells.len() && cells[i].row == row && cells[i].column == column
}

/// The rectangular collection of cells of one terminal. The grid owns its
/// cells; each (row, column) pair of its extent has exactly one.
pub struct CellGrid {
    rows: u16,
    columns: u16,
    cells: Vec<VirtualCell>,
}

impl View for CellGrid {
    type V = Seq<VirtualCell>;

    closed spec fn view(&self) -> Seq<VirtualCell> {
        self.cells@
    }
}

impl CellGrid {
    /// The number of rows of the grid.
    pub closed spec fn spec_rows(&self) -> nat {
        self.rows as nat
    }

    /// The number of columns of the grid.
    pub closed spec fn spec_columns(&self) -> nat {
        self.columns as nat
    }

    /// The grid's cells are stored column by column, one per coordinate pair.
    pub open spec fn wf(&self) -> bool {
        column_major(self@, self.spec_rows(), self.spec_columns())
    }

    /// One cell for every (row, column) pair of the terminal's extent, each
    /// showing the placeholder glyph in the terminal's default colours with
    /// every other attribute at its default.
    pub fn new(terminal: &VirtualTerminal) -> (g: CellGrid)
        ensures
            g.wf(),
            covers_exactly(g@, terminal.rows as nat, terminal.columns as nat),
            g.spec_rows() == terminal.rows,
            g.spec_columns() == terminal.columns,
            forall|i: int|
                0 <= i < g@.len() ==> (#[trigger] g@[i]).symbol@ == placeholder_glyph()
                    && g@[i].style == inherited_style(
                    terminal.default_foreground,
                    terminal.default_background,
                ),
    {
        let rows = terminal.rows;
        let columns = terminal.columns;
        let foreground = terminal.default_foreground;
        let background = terminal.default_background;
        let mut cells: Vec<VirtualCell> = Vec::new();
        for x in 0..columns
            invariant
                rows == terminal.rows,
                foreground == terminal.default_foreground,
                background == terminal.default_background,
                cells@.len() == x as nat * rows as nat,
                forall|i: int|
                    0 <= i < cells@.len() ==> (#[trigger] cells@[i]).row == i % (rows as int)
                        && cells@[i].column == i / (rows as int) && cells@[i].symbol@
                        == placeholder_glyph() && cells@[i].style == inherited_style(
                        foreground,
                        background,
                    ),
        {
            for y in 0..rows
                invariant
                    x < columns,
                    rows == terminal.rows,
                    foreground == terminal.default_foreground,
                    background == terminal.default_background,
                    cells@.len() == x as nat * rows as nat + y as nat,
                    forall|i: int|
                        0 <= i < cells@.len() ==> (#[trigger] cells@[i]).row == i % (rows as int)
                            && cells@[i].column == i / (rows as int) && cells@[i].symbol@
                            == placeholder_glyph() && cells@[i].style == inherited_style(
                            foreground,
                            background,
                        ),
            {
                proof {
                    lemma_fundamental_div_mod_converse(
                        cells@.len() as int,
                        rows as int,
                        x as int,
                        y as int,
                    );
                }
                cells.push(VirtualCell::new(x, y, foreground, background));
            }
            assert(cells@.len() == (x + 1) as nat * rows as nat) by (nonlinear_arith)
                requires
                    cells@.len() == x as nat * rows as nat + rows as nat,
            ;
        }
        let g = CellGrid { rows, columns, cells };
        assert(g@.len() == g.spec_rows() * g.spec_columns()) by (nonlinear_arith)
            requires
                g@.len() == columns as nat * rows as nat,
                g.spec_rows() == rows,
                g.spec_columns() == columns,
        ;
        assert(forall|i: int| 0 <= i < g@.len() ==> #[trigger] g@[i] == cells@[i]);
        proof {
            lemma_grid_covers_extent(&g);
        }
        g
    }
}

impl CellGrid {
    /// The number of rows.
    pub fn rows(&self) -> (r: u16)
        ensures
            r == self.spec_rows(),
    {
        self.rows
    }

    /// The number of columns.
    pub fn columns(&self) -> (c: u16)
        ensures
            c == self.spec_columns(),
    {
        self.columns
    }

    /// The number of cells.
    pub fn len(&self) -> (n: usize)
        ensures
            n == self@.len(),
    {
        self.cells.len()
    }

    /// Whether the grid holds no cell, which is so exactly when its extent
    /// has no row or no column.
    pub fn is_empty(&self) -> (b: bool)
        requires
            self.wf(),
        ensures
            b == (self@.len() == 0),
            b == (self.spec_rows() == 0 || self.spec_columns() == 0),
    {
        proof {
            let rows = self.spec_rows() as int;
            let columns = self.spec_columns() as int;
            assert((rows * columns == 0) == (rows == 0 || columns == 0)) by (nonlinear_arith)
                requires
                    rows >= 0,
                    columns >= 0,
            ;
        }
        self.cells.len() == 0
    }

    /// All cells, column by column.
    pub fn cells(&self) -> (v: &Vec<VirtualCell>)
        ensures
            v@ == self@,
    {
        &self.cells
    }

    /// The slot of the cell at (`row`, `column`), which lies in the extent.
    fn slot(&self, row: u16, column: u16) -> (i: usize)
        requires
            self.wf(),
            row < self.spec_rows(),
            column < self.spec_columns(),
        ensures
            i == cell_index(row as int, column as int, self.spec_rows() as int),
            i < self@.len(),
            self@[i as int].row == row,
            self@[i as int].column == column,
    {
        let rows = self.rows as usize;
        let columns = self.columns as usize;
        let r = row as usize;
        let c = column as usize;
        proof {
            assert(c * rows + r < rows * columns) by (nonlinear_arith)
                requires
                    r < rows,
                    c < columns,
            ;
            assert(rows * columns <= 0xffff * 0xffff) by (nonlinear_arith)
                requires
                    rows <= 0xffff,
                    columns <= 0xffff,
            ;
            lemma_fundamental_div_mod_converse(
                (c * rows + r) as int,
                rows as int,
                c as int,
                r as int,
            );
        }
        let i = c * rows + r;
        assert(self@[i as int].row == i as int % (rows as int));
        i
    }

    /// The cell at (`row`, `column`), or `None` where that pair lies outside
    /// the extent.
    pub fn get(&self, row: u16, column: u16) -> (r: Option<&VirtualCell>)
        requires
            self.wf(),
        ensures
            r.is_some() <==> row < self.spec_rows() && column < self.spec_columns(),
            r.is_some() ==> *r.unwrap() == self@[cell_index(
                row as int,
                column as int,
                self.spec_rows() as int,
            )],
            r.is_some() ==> r.unwrap().row == row && r.unwrap().column == column,
    {
        if row < self.rows && column < self.columns {
            let i = self.slot(row, column);
            Some(&self.cells[i])
        } else {
            None
        }
    }

    /// Replaces the style of the cell at (`row`, `column`); returns whether
    /// that pair lies in the extent. Nothing changes where it does not.
    pub fn set_style(&mut self, row: u16, column: u16, style: CellStyle) -> (updated: bool)
        requires
            old(self).wf(),
        ensures
            final(self).wf(),
            final(self).spec_rows() == old(self).spec_rows(),
            final(self).spec_columns() == old(self).spec_columns(),
            updated <==> row < old(self).spec_rows() && column < old(self).spec_columns(),
            updated ==> ({
                let i = cell_index(row as int, column as int, old(self).spec_rows() as int);
                final(self)@ == old(self)@.update(i, VirtualCell { style, ..old(self)@[i] })
            }),
            !updated ==> final(self)@ == old(self)@,
    {
        if row < self.rows && column < self.columns {
            let i = self.slot(row, column);
            self.cells[i].style = style;
            proof {
                assert(self@ =~= old(self)@.update(i as int, VirtualCell { style, ..old(self)@[i as int] }));
            }
            true
        } else {
            false
        }
    }

    /// Replaces the glyph of the cell at (`row`, `column`); returns whether
    /// that pair lies in the extent. Nothing changes where it does not.
    pub fn set_symbol(&mut self, row: u16, column: u16, symbol: String) -> (updated: bool)
        requires
            old(self).wf(),
        ensures
            final(self).wf(),
            final(self).spec_rows() == old(self).spec_rows(),
            final(self).spec_columns() == old(self).spec_columns(),
            updated <==> row < old(self).spec_rows() && column < old(self).spec_columns(),
            updated ==> ({
                let i = cell_index(row as int, column as int, old(self).spec_rows() as int);
                final(self)@ == old(self)@.update(i, VirtualCell { symbol, ..old(self)@[i] })
            }),
            !updated ==> final(self)@ == old(self)@,
    {
        if row < self.rows && column < self.columns {
            let i = self.slot(row, column);
            self.cells[i].symbol = symbol;
            proof {
                assert(self@ =~= old(self)@.update(i as int, VirtualCell { symbol: self@[i as int].symbol, ..old(self)@[i as int] }));
            }
            true
        } else {
            false
        }
    }
}

/// After construction, and as long as a grid stays well formed, it holds
/// exactly `rows * columns` cells, one for each (row, column) pair of its
/// extent: none outside it, none twice, none missing.
pub proof fn lemma_grid_covers_extent(grid: &CellGrid)
    requires
        grid.wf(),
    ensures
        covers_exactly(grid@, grid.spec_rows(), grid.spec_columns()),
{
    let cells = grid@;
    let rows = grid.spec_rows() as int;
    let columns = grid.spec_columns() as int;
    assert(column_major(cells, grid.spec_rows(), grid.spec_columns()));
    assert forall|i: int| 0 <= i < cells.len() implies #[trigger] cells[i].row < rows
        && cells[i].column < columns by {
        assert(rows > 0) by (nonlinear_arith)
            requires
                0 <= i < rows * columns,
                rows >= 0,
                columns >= 0,
        ;
        lemma_fundamental_div_mod(i, rows);
        lemma_mod_pos_bound(i, rows);
        let q = i / rows;
        let r = i % rows;
        assert(cells[i].row == r && cells[i].column == q);
        assert(q < columns) by (nonlinear_arith)
            requires
                i == rows * q + r,
                0 <= r,
                rows > 0,
                i < rows * columns,
        ;
    }
    assert forall|i: int, j: int|
        0 <= i < cells.len() && 0 <= j < cells.len() && i != j implies !(#[trigger] cells[i].row
        == #[trigger] cells[j].row && cells[i].column == cells[j].column) by {
        if rows != 0 {
            lemma_fundamental_div_mod(i, rows);
            lemma_fundamental_div_mod(j, rows);
        }
    }
    assert forall|r: int, c: int| 0 <= r < rows && 0 <= c < columns implies #[trigger] has_cell_at(
        cells,
        r,
        c,
    ) by {
        let i = cell_index(r, c, rows);
        lemma_fundamental_div_mod_converse(i, rows, c, r);
        assert(i < rows * columns) by (nonlinear_arith)
            requires
                i == c * rows + r,
                0 <= r < rows,
                0 <= c < columns,
        ;
        assert(cells[i].row == r && cells[i].column == c);
    }
}

} // verus!
