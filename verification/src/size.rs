//! The size of the terminal: its cells, its grid and the layout around it.
use crate::point::Pos;
use vstd::prelude::*;

verus! {

/// Number of columns and lines of a grid; neither is ever zero.
#[derive(Debug, Clone, Copy)]
pub struct GridSize {
    cols: u16,
    lines: u16,
}

impl GridSize {
    #[verifier::type_invariant]
    spec fn inv(self) -> bool {
        self.cols > 0 && self.lines > 0
    }

    /// Number of columns.
    pub closed spec fn spec_cols(self) -> int {
        self.cols as int
    }

    /// Number of lines.
    pub closed spec fn spec_lines(self) -> int {
        self.lines as int
    }
}

/// The extent of the layout in pixels. Both numbers are the bit patterns of
/// single-precision numbers: they are kept here, and calculated with by the
/// code that fits the grid into the layout.
#[derive(Debug, Clone, Copy, PartialEq, Eq, Structural)]
pub struct LayoutSize {
    pub width: u32,
    pub height: u32,
}

/// The extent of a cell in whole pixels.
#[derive(Debug, Clone, Copy, PartialEq, Eq, Structural)]
pub struct CellSize {
    pub width: u16,
    pub height: u16,
}

/// The grid that fits into the layout, and the layout in whole pixels.
#[derive(Debug, Clone, Copy, PartialEq, Eq, Structural)]
pub struct GridFit {
    pub lines: u16,
    pub cols: u16,
    pub width: u16,
    pub height: u16,
}

/// A window size, as the pseudo-terminal is told.
#[derive(Debug, Clone, Copy, PartialEq, Eq, Structural)]
pub struct WindowSize {
    pub rows: u16,
    pub cols: u16,
    pub width: u16,
    pub height: u16,
}

/// The width of 80 pixels.
pub const DEFAULT_LAYOUT_WIDTH: u32 = 0x42a0_0000;

/// The height of 50 pixels.
pub const DEFAULT_LAYOUT_HEIGHT: u32 = 0x4248_0000;

/// The size of the terminal.
#[derive(Debug, Clone, Copy)]
pub struct TerminalSize {
    pub cell_width: u16,
    pub cell_height: u16,
    pub grid: GridSize,
    pub layout: LayoutSize,
}

impl Default for TerminalSize {
    fn default() -> (r: TerminalSize)
        ensures
            r.cell_width == 1,
            r.cell_height == 1,
            r.num_cols() == 80,
            r.num_lines() == 50,
            r.layout == (LayoutSize {
                width: DEFAULT_LAYOUT_WIDTH,
                height: DEFAULT_LAYOUT_HEIGHT,
            }),
    {
        TerminalSize {
            cell_width: 1,
            cell_height: 1,
            grid: GridSize { cols: 80, lines: 50 },
            layout: LayoutSize { width: DEFAULT_LAYOUT_WIDTH, height: DEFAULT_LAYOUT_HEIGHT },
        }
    }
}

impl TerminalSize {
    /// Number of columns.
    pub open spec fn num_cols(self) -> int {
        self.grid.spec_cols()
    }

    /// Number of lines on the screen.
    pub open spec fn num_lines(self) -> int {
        self.grid.spec_lines()
    }

    /// The grid has at least one cell. This holds of every size there is.
    pub open spec fn has_cells(self) -> bool {
        1 <= self.num_cols() <= u16::MAX && 1 <= self.num_lines() <= u16::MAX
    }

    /// Number of lines: there is no history in a size.
    pub fn total_lines(&self) -> (r: usize)
        ensures
            r == self.num_lines(),
            self.has_cells(),
    {
        self.screen_lines()
    }

    /// Number of columns.
    pub fn columns(&self) -> (r: usize)
        ensures
            r == self.num_cols(),
            self.has_cells(),
    {
        let grid: GridSize = self.grid;
        proof {
            use_type_invariant(&grid);
        }
        grid.cols as usize
    }

    /// The rightmost column.
    pub fn last_column(&self) -> (r: usize)
        ensures
            r == self.num_cols() - 1,
            self.has_cells(),
    {
        self.columns() - 1
    }

    /// The bottom line of the screen.
    pub fn bottommost_line(&self) -> (r: i32)
        ensures
            r == self.num_lines() - 1,
            self.has_cells(),
    {
        self.screen_lines() as i32 - 1
    }

    /// Number of lines on the screen.
    pub fn screen_lines(&self) -> (r: usize)
        ensures
            r == self.num_lines(),
            self.has_cells(),
    {
        let grid: GridSize = self.grid;
        proof {
            use_type_invariant(&grid);
        }
        grid.lines as usize
    }

    /// Takes over a new layout and a new cell size, where given. The grid
    /// stays as it is.
    pub fn measure(&mut self, layout: Option<LayoutSize>, cell: Option<CellSize>)
        ensures
            final(self).num_cols() == old(self).num_cols(),
            final(self).num_lines() == old(self).num_lines(),
            final(self).layout == (match layout {
                Some(size) => size,
                None => old(self).layout,
            }),
            final(self).cell_width == (match cell {
                Some(size) => size.width,
                None => old(self).cell_width,
            }),
            final(self).cell_height == (match cell {
                Some(size) => size.height,
                None => old(self).cell_height,
            }),
    {
        if let Some(size) = layout {
            self.layout = size;
        }
        if let Some(size) = cell {
            self.cell_height = size.height;
            self.cell_width = size.width;
        }
    }

    /// Takes over the grid of `fit` and says what the pseudo-terminal is to
    /// be told. A fit without a line or without a column changes nothing.
    pub fn fit_grid(&mut self, fit: GridFit) -> (r: Option<WindowSize>)
        ensures
            fit.lines == 0 || fit.cols == 0 ==> r is None && *final(self) == *old(self),
            fit.lines > 0 && fit.cols > 0 ==> {
                &&& r == Some(
                    WindowSize {
                        rows: fit.lines,
                        cols: fit.cols,
                        width: fit.width,
                        height: fit.height,
                    },
                )
                &&& final(self).num_lines() == fit.lines
                &&& final(self).num_cols() == fit.cols
                &&& final(self).layout == old(self).layout
                &&& final(self).cell_width == old(self).cell_width
                &&& final(self).cell_height == old(self).cell_height
            },
    {
        if fit.lines > 0 && fit.cols > 0 {
            self.grid = GridSize { cols: fit.cols, lines: fit.lines };
            Some(
                WindowSize {
                    rows: fit.lines,
                    cols: fit.cols,
                    width: fit.width,
                    height: fit.height,
                },
            )
        } else {
            None
        }
    }
}

/// The smaller of two numbers.
pub open spec fn least(a: int, b: int) -> int {
    if a <= b {
        a
    } else {
        b
    }
}

/// The column of the cell at `x` pixels; the last one beyond the grid.
pub open spec fn cell_column(x: usize, size: TerminalSize) -> int {
    least(x as int / size.cell_width as int, size.num_cols() - 1)
}

/// The screen line of the cell at `y` pixels; the last one below the grid.
pub open spec fn cell_line(y: usize, size: TerminalSize) -> int {
    least(y as int / size.cell_height as int, size.num_lines() - 1)
}

/// Whether the cell at `y` pixels has a row number when the display is
/// scrolled back by `display_offset` lines, and the cells have an extent.
pub open spec fn point_exists(y: usize, size: TerminalSize, display_offset: usize) -> bool {
    &&& size.cell_width > 0
    &&& size.cell_height > 0
    &&& i32::MIN <= cell_line(y, size) - (display_offset as i32) <= i32::MAX
}

/// Whether the cell at `y` pixels has a row number, and the cells have an
/// extent.
pub fn does_point_exist(y: usize, size: &TerminalSize, display_offset: usize) -> (r: bool)
    ensures
        r == point_exists(y, *size, display_offset),
{
    if size.cell_width == 0 || size.cell_height == 0 {
        return false;
    }
    let line: usize = y / (size.cell_height as usize);
    let last_line: usize = size.screen_lines() - 1;
    let line: usize = if line <= last_line { line } else { last_line };
    let offset: i32 = #[verifier::truncate] (display_offset as i32);
    let row: i64 = line as i64 - offset as i64;
    i32::MIN as i64 <= row && row <= i32::MAX as i64
}

/// The cell at `x`, `y` pixels when the display is scrolled back by
/// `display_offset` lines.
pub open spec fn point_at(x: usize, y: usize, size: TerminalSize, display_offset: usize) -> Pos {
    Pos {
        row: (cell_line(y, size) - (display_offset as i32)) as i32,
        col: cell_column(x, size) as usize,
    }
}

/// A point of the screen lies on the screen: its row, counted from the top of
/// the displayed area, is a screen line, and its column is a column.
pub proof fn point_lies_on_screen(x: usize, y: usize, size: TerminalSize, display_offset: usize)
    requires
        size.has_cells(),
        point_exists(y, size, display_offset),
    ensures
        0 <= point_at(x, y, size, display_offset).row + (display_offset as i32) < size.num_lines(),
        0 <= point_at(x, y, size, display_offset).col < size.num_cols(),
{
    assert(0 <= x as int / size.cell_width as int) by (nonlinear_arith)
        requires
            size.cell_width > 0,
    ;
    assert(0 <= y as int / size.cell_height as int) by (nonlinear_arith)
        requires
            size.cell_height > 0,
    ;
}

/// A pixel of the grid belongs to the cell that covers it.
pub proof fn pixel_lies_in_its_cell(x: usize, y: usize, size: TerminalSize, display_offset: usize)
    requires
        size.has_cells(),
        point_exists(y, size, display_offset),
        x < size.num_cols() * size.cell_width,
        y < size.num_lines() * size.cell_height,
    ensures
        ({
            let point = point_at(x, y, size, display_offset);
            let line = point.row + (display_offset as i32);
            &&& point.col * size.cell_width <= x < (point.col + 1) * size.cell_width
            &&& line * size.cell_height <= y < (line + 1) * size.cell_height
        }),
{
    quotient_brackets(x as int, size.cell_width as int, size.num_cols());
    quotient_brackets(y as int, size.cell_height as int, size.num_lines());
}

pub(crate) proof fn quotient_brackets(x: int, d: int, limit: int)
    requires
        0 <= x < limit * d,
        d > 0,
    ensures
        0 <= x / d < limit,
        (x / d) * d <= x < (x / d + 1) * d,
{
    vstd::arithmetic::div_mod::lemma_fundamental_div_mod(x, d);
    vstd::arithmetic::div_mod::lemma_mod_bound(x, d);
    let q = x / d;
    assert(q * d <= x < (q + 1) * d) by (nonlinear_arith)
        requires
            x == d * q + x % d,
            0 <= x % d < d,
    ;
    assert(0 <= q < limit) by (nonlinear_arith)
        requires
            q * d <= x < (q + 1) * d,
            0 <= x < limit * d,
            d > 0,
    ;
}

/// Scrolling back moves the point under a pixel up by as many rows, and leaves
/// its column alone.
pub proof fn scrolling_back_shifts_rows(
    x: usize,
    y: usize,
    size: TerminalSize,
    offset: usize,
    further: usize,
)
    requires
        point_exists(y, size, offset),
        point_exists(y, size, further),
        offset <= further <= i32::MAX,
    ensures
        point_at(x, y, size, offset).row - point_at(x, y, size, further).row == further - offset,
        point_at(x, y, size, offset).col == point_at(x, y, size, further).col,
{
}

} // verus!
