//! Pixels, cells and positions.
use crate::backend::side_at;
use crate::grid::{covers, cursor_on_grid, lines_fit, rectangular, walkable, GridView};
use crate::point::{at_or_before, match_contains, Match, Pos};
use crate::selection::Side;
use crate::size::{point_at, point_exists, quotient_brackets, TerminalSize};
use vstd::prelude::*;

verus! {

/// Whether `index` is the cell at `pixels` in a row of `count` cells that are
/// `extent` pixels each: the one that covers it, or the last one beyond them
/// all.
pub open spec fn is_cell_at(index: int, pixels: int, extent: int, count: int) -> bool {
    if pixels < count * extent {
        0 <= index < count && index * extent <= pixels < (index + 1) * extent
    } else {
        index == count - 1
    }
}

proof fn least_quotient_is_cell(pixels: int, extent: int, count: int)
    requires
        pixels >= 0,
        extent > 0,
        count >= 1,
    ensures
        is_cell_at(crate::size::least(pixels / extent, count - 1), pixels, extent, count),
{
    if pixels < count * extent {
        quotient_brackets(pixels, extent, count);
    } else {
        vstd::arithmetic::div_mod::lemma_fundamental_div_mod(pixels, extent);
        vstd::arithmetic::div_mod::lemma_mod_bound(pixels, extent);
        let quotient = pixels / extent;
        assert(quotient >= count) by (nonlinear_arith)
            requires
                pixels == extent * quotient + pixels % extent,
                pixels % extent < extent,
                pixels >= count * extent,
                extent > 0,
        ;
    }
}

/// The point at a pixel is the cell that covers it, or the nearest one beyond
/// the grid, and its row counts from as many lines above the screen as the
/// display is scrolled back.
pub proof fn point_is_the_cell_at_the_pixel(
    x: usize,
    y: usize,
    size: TerminalSize,
    display_offset: usize,
)
    requires
        size.has_cells(),
        size.cell_width > 0,
        size.cell_height > 0,
        display_offset <= i32::MAX,
    ensures
        point_exists(y, size, display_offset),
        ({
            let point = point_at(x, y, size, display_offset);
            &&& is_cell_at(point.col as int, x as int, size.cell_width as int, size.num_cols())
            &&& is_cell_at(
                point.row + display_offset,
                y as int,
                size.cell_height as int,
                size.num_lines(),
            )
        }),
{
    least_quotient_is_cell(x as int, size.cell_width as int, size.num_cols());
    least_quotient_is_cell(y as int, size.cell_height as int, size.num_lines());
    vstd::arithmetic::div_mod::lemma_div_pos_is_pos(x as int, size.cell_width as int);
    vstd::arithmetic::div_mod::lemma_div_pos_is_pos(y as int, size.cell_height as int);
}

/// The same of any offset, which counts as a number of 32 bits.
pub proof fn point_is_the_cell_at_any_offset(
    x: usize,
    y: usize,
    size: TerminalSize,
    display_offset: usize,
)
    requires
        size.has_cells(),
        point_exists(y, size, display_offset),
    ensures
        size.cell_width > 0,
        size.cell_height > 0,
        ({
            let point = point_at(x, y, size, display_offset);
            &&& is_cell_at(point.col as int, x as int, size.cell_width as int, size.num_cols())
            &&& is_cell_at(
                point.row + (display_offset as i32),
                y as int,
                size.cell_height as int,
                size.num_lines(),
            )
        }),
{
    least_quotient_is_cell(x as int, size.cell_width as int, size.num_cols());
    least_quotient_is_cell(y as int, size.cell_height as int, size.num_lines());
    vstd::arithmetic::div_mod::lemma_div_pos_is_pos(x as int, size.cell_width as int);
    vstd::arithmetic::div_mod::lemma_div_pos_is_pos(y as int, size.cell_height as int);
}

/// There is no point where a cell has no extent, and one everywhere else as far
/// as rows have numbers.
pub proof fn points_need_cells_with_an_extent(y: usize, size: TerminalSize, display_offset: usize)
    requires
        size.has_cells(),
        display_offset <= i32::MAX,
    ensures
        point_exists(y, size, display_offset) <==> size.cell_width > 0 && size.cell_height > 0,
{
    if size.cell_width > 0 && size.cell_height > 0 {
        point_is_the_cell_at_the_pixel(0, y, size, display_offset);
    }
}

/// A place `within` pixels behind the left edge of any cell is in the right
/// half exactly when it is beyond the middle.
pub proof fn right_half_is_beyond_the_middle(x: usize, cell: int, within: int, cell_width: u16)
    requires
        0 <= within < cell_width,
        x == cell * cell_width + within,
    ensures
        side_at(x, cell_width) == if 2 * within > cell_width {
            Side::Right
        } else {
            Side::Left
        },
{
    vstd::arithmetic::div_mod::lemma_fundamental_div_mod_converse(
        x as int,
        cell_width as int,
        cell,
        within,
    );
}

/// Reading order is the order of the numbers that cells have when they are
/// counted through line by line, however wide the lines are.
pub proof fn reading_order_counts_through_lines(a: Pos, b: Pos, width: int)
    requires
        a.col < width,
        b.col < width,
    ensures
        at_or_before(a, b) <==> a.row * width + a.col <= b.row * width + b.col,
{
    if a.row < b.row {
        assert(a.row * width + width <= b.row * width) by (nonlinear_arith)
            requires
                a.row + 1 <= b.row,
                width > 0,
        ;
    }
    if b.row < a.row {
        assert(b.row * width + width <= a.row * width) by (nonlinear_arith)
            requires
                b.row + 1 <= a.row,
                width > 0,
        ;
    }
}

/// A match has the cells whose numbers are between those of its two ends.
pub proof fn match_is_an_interval(found: Match, point: Pos, width: int)
    requires
        found.start.col < width,
        found.end.col < width,
        point.col < width,
    ensures
        match_contains(found, point) <==> found.start.row * width + found.start.col <= point.row
            * width + point.col <= found.end.row * width + found.end.col,
{
    reading_order_counts_through_lines(found.start, point, width);
    reading_order_counts_through_lines(point, found.end, width);
}

/// A rectangular grid has a cell in every column of every line, from the top of
/// the history to the bottom of the screen.
pub proof fn rectangular_grid_has_every_cell(grid: GridView, row: int, col: int)
    requires
        rectangular(grid),
    ensures
        covers(grid, row, col) <==> grid.lines - grid.total_lines <= row < grid.lines && 0 <= col
            < grid.columns,
{
    if grid.lines - grid.total_lines <= row < grid.lines {
        assert(grid.cells[row].len() == grid.columns);
    }
}

/// A grid has the cells of its lines and no others, however long they are.
pub proof fn grid_has_the_cells_of_its_lines(grid: GridView, row: int, col: int)
    ensures
        covers(grid, row, col) <==> row < grid.lines && row + grid.total_lines >= grid.lines && 0
            <= col && col < grid.cells[row].len(),
        lines_fit(grid) <==> grid.lines <= grid.total_lines && grid.total_lines < 0x8000_0000,
{
}

/// A grid can be walked when it has a column and its lines have numbers; its
/// cursor is on it when there is a cell where it stands.
pub proof fn what_grids_can_be_read(grid: GridView)
    ensures
        walkable(grid) <==> grid.columns > 0 && grid.lines <= grid.total_lines && grid.total_lines
            < 0x8000_0000 && grid.display_offset < 0x8000_0000,
        cursor_on_grid(grid) <==> grid.lines <= grid.total_lines && grid.total_lines < 0x8000_0000
            && grid.cursor.row < grid.lines && grid.cursor.row + grid.total_lines >= grid.lines
            && grid.cursor.col < grid.cells[grid.cursor.row as int].len(),
{
}

} // verus!
