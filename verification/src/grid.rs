//! The grid of cells that the terminal core keeps, seen from outside.
use crate::colors::AnsiColor;
use crate::point::Pos;
use rio_vt::crosswords::grid::{Dimensions, Grid};
use rio_vt::crosswords::pos::{Column, Line};
use rio_vt::crosswords::square::Square;
use vstd::prelude::*;

verus! {

/// `rio_vt`'s grid of cells.
#[verifier::external_type_specification]
#[verifier::external_body]
#[verifier::reject_recursive_types(T)]
pub struct ExGrid<T>(rio_vt::crosswords::grid::Grid<T>);

/// `rio_vt`'s cell, packed into 64 bits.
#[verifier::external_type_specification]
#[verifier::external_body]
pub struct ExSquare(rio_vt::crosswords::square::Square);

/// The packed bits of a cell.
pub uninterp spec fn square_bits(square: Square) -> u64;

/// The cells of a grid: the packed bits of every line.
pub uninterp spec fn grid_cells(grid: Grid<Square>) -> Map<int, Seq<u64>>;

/// Number of columns of a grid.
pub uninterp spec fn grid_columns(grid: Grid<Square>) -> usize;

/// Number of lines on the screen.
pub uninterp spec fn grid_lines(grid: Grid<Square>) -> usize;

/// Number of lines, the history included.
pub uninterp spec fn grid_total_lines(grid: Grid<Square>) -> usize;

/// How many lines the display is scrolled back.
pub uninterp spec fn grid_display_offset(grid: Grid<Square>) -> usize;

/// Where the cursor is.
pub uninterp spec fn grid_cursor(grid: Grid<Square>) -> Pos;

/// The style table of a grid: foreground, background and flags of every style.
pub uninterp spec fn grid_styles(grid: Grid<Square>) -> Seq<(AnsiColor, AnsiColor, u16)>;

/// The rare data of cells, by the number that a cell refers to it with:
/// characters without a width, and the id and the address of a hyperlink.
pub uninterp spec fn grid_extras(grid: Grid<Square>) -> Map<
    int,
    (Seq<char>, Option<(Seq<char>, Seq<char>)>),
>;

/// The underline color of every style of the style table, where it has one.
pub uninterp spec fn grid_underlines(grid: Grid<Square>) -> Seq<Option<AnsiColor>>;

/// How text is written.
pub struct PenView {
    /// The packed bits of the cell that new cells are made of.
    pub template: u64,
    /// For each of the four character sets, whether it is the one for drawing
    /// lines.
    pub line_drawing: Seq<bool>,
    /// Whether the next character goes to the next line.
    pub should_wrap: bool,
}

/// How text is written at the cursor.
pub uninterp spec fn grid_pen(grid: Grid<Square>) -> PenView;

/// Where the saved cursor is.
pub uninterp spec fn grid_saved_cursor(grid: Grid<Square>) -> Pos;

/// How text is written at the saved cursor.
pub uninterp spec fn grid_saved_pen(grid: Grid<Square>) -> PenView;

/// What part of a prompt a line is.
pub enum PromptPart {
    Outside,
    Prompt,
    Continuation,
}

/// The marks on a line.
pub struct LineMarks {
    /// Whether a cell stands for a part of an image.
    pub image_placeholder: bool,
    /// Whether a cell may have rare data.
    pub has_extras: bool,
    pub prompt: PromptPart,
}

/// The marks on every line.
pub uninterp spec fn grid_line_marks(grid: Grid<Square>) -> Map<int, LineMarks>;

/// The lines that may have been written to since they were last drawn.
pub uninterp spec fn grid_dirty_lines(grid: Grid<Square>) -> Set<int>;

/// How many lines the history can have.
pub uninterp spec fn grid_history_limit(grid: Grid<Square>) -> usize;

/// How many lines have ever left the history.
pub uninterp spec fn grid_lines_evicted(grid: Grid<Square>) -> u64;

/// Whether the next reflow is to be recorded, and the record of the last one:
/// the absolute number of its first line, and the place that each line went to.
pub uninterp spec fn grid_reflow(grid: Grid<Square>) -> (bool, Option<(u64, Seq<i64>)>);

/// Everything that is known of a grid, except for which lines may have been
/// written to.
pub struct GridView {
    pub cells: Map<int, Seq<u64>>,
    pub styles: Seq<(AnsiColor, AnsiColor, u16)>,
    pub underlines: Seq<Option<AnsiColor>>,
    pub extras: Map<int, (Seq<char>, Option<(Seq<char>, Seq<char>)>)>,
    pub line_marks: Map<int, LineMarks>,
    pub columns: int,
    pub lines: int,
    pub total_lines: int,
    pub display_offset: int,
    pub cursor: Pos,
    pub pen: PenView,
    pub saved_cursor: Pos,
    pub saved_pen: PenView,
    pub history_limit: int,
    pub lines_evicted: int,
    pub reflow: (bool, Option<(u64, Seq<i64>)>),
}

/// Everything that is known of `grid`, except for which lines may have been
/// written to.
pub open spec fn grid_view(grid: Grid<Square>) -> GridView {
    GridView {
        cells: grid_cells(grid),
        styles: grid_styles(grid),
        underlines: grid_underlines(grid),
        extras: grid_extras(grid),
        line_marks: grid_line_marks(grid),
        columns: grid_columns(grid) as int,
        lines: grid_lines(grid) as int,
        total_lines: grid_total_lines(grid) as int,
        display_offset: grid_display_offset(grid) as int,
        cursor: grid_cursor(grid),
        pen: grid_pen(grid),
        saved_cursor: grid_saved_cursor(grid),
        saved_pen: grid_saved_pen(grid),
        history_limit: grid_history_limit(grid) as int,
        lines_evicted: grid_lines_evicted(grid) as int,
        reflow: grid_reflow(grid),
    }
}

/// Whether the cell under the cursor of a grid was looked at: its line may have
/// been written to, and nothing else changed.
pub open spec fn cursor_line_touched(before: Grid<Square>, after: Grid<Square>) -> bool {
    &&& grid_view(after) == grid_view(before)
    &&& grid_dirty_lines(after) == grid_dirty_lines(before).insert(
        grid_cursor(before).row as int,
    )
}

/// Whether a cursor writes plain text: blank cells are made, in four character
/// sets none of which draws lines, and the line goes on.
pub open spec fn is_plain_pen(pen: PenView) -> bool {
    &&& pen.template == 0
    &&& pen.line_drawing == seq![false, false, false, false]
    &&& !pen.should_wrap
}

/// The character in the packed bits of a cell: the low 21 bits, or a NUL where
/// they are no character.
pub open spec fn bits_char(bits: u64) -> char {
    let scalar = (bits & 0x1f_ffff) as u32;
    if vstd::utf8::is_scalar(scalar) {
        scalar as char
    } else {
        '\0'
    }
}

/// Whether the line numbers of the grid fit their type.
pub open spec fn lines_fit(grid: GridView) -> bool {
    grid.lines <= grid.total_lines <= i32::MAX
}

/// Whether the grid can be walked cell by cell: it has a column, and its line
/// numbers fit their type.
pub open spec fn walkable(grid: GridView) -> bool {
    grid.columns >= 1 && lines_fit(grid) && grid.display_offset <= i32::MAX
}

/// Whether the grid has a cell at this line and column.
pub open spec fn covers(grid: GridView, row: int, col: int) -> bool {
    &&& grid.lines - grid.total_lines <= row < grid.lines
    &&& 0 <= col < grid.cells[row].len()
}

/// A cell and where it stands.
pub struct Cell {
    pub pos: Pos,
    pub square: Square,
}

/// A cell and where it stands, with the cell as its packed bits.
pub struct CellView {
    pub pos: Pos,
    pub bits: u64,
}

impl View for Cell {
    type V = CellView;

    open spec fn view(&self) -> CellView {
        CellView { pos: self.pos, bits: square_bits(self.square) }
    }
}

/// The views of a sequence of cells.
pub open spec fn cell_views(cells: Seq<Cell>) -> Seq<CellView> {
    cells.map_values(|cell: Cell| cell@)
}

/// How many cells the grid has in a line.
pub open spec fn line_length(grid: GridView, row: int) -> int {
    if grid.lines - grid.total_lines <= row < grid.lines {
        grid.cells[row].len() as int
    } else {
        0
    }
}

/// The cells after the given position, in reading order, up to the end of
/// line `end_row`. The walk goes on to the next line behind the last column,
/// and ends early where the grid has no cell.
pub open spec fn walk(grid: GridView, row: int, col: int, end_row: int) -> Seq<CellView>
    decreases end_row - row, line_length(grid, row) - col,
{
    let next_row = if col == grid.columns - 1 {
        row + 1
    } else {
        row
    };
    let next_col = if col == grid.columns - 1 {
        0
    } else {
        col + 1
    };
    if row > end_row || (row == end_row && col >= grid.columns - 1) {
        seq![]
    } else if !covers(grid, next_row, next_col) {
        seq![]
    } else {
        seq![
            CellView {
                pos: Pos { row: next_row as i32, col: next_col as usize },
                bits: grid.cells[next_row][next_col],
            },
        ] + walk(grid, next_row, next_col, end_row)
    }
}

/// The cells behind `start`, to the end of the screen.
pub open spec fn cells_behind(grid: GridView, start: Pos) -> Seq<CellView> {
    walk(grid, start.row as int, start.col as int, grid.lines - 1)
}

/// The cells of the displayed area.
pub open spec fn displayed_cells(grid: GridView) -> Seq<CellView> {
    walk(
        grid,
        -grid.display_offset - 1,
        grid.columns - 1,
        crate::size::least(-grid.display_offset - 1 + grid.lines, grid.lines - 1),
    )
}

/// `Grid::new` with no lines, no columns and no history. The style table holds
/// the default style, there is no rare data, and both cursors are at the top
/// left and write plain text.
#[verifier::external_body]
pub(crate) fn empty_grid() -> (r: Grid<Square>)
    ensures
        grid_styles(r) == seq![
            (
                AnsiColor::Named(crate::colors::FOREGROUND),
                AnsiColor::Named(crate::colors::BACKGROUND),
                0u16,
            ),
        ],
        grid_underlines(r) == seq![None::<AnsiColor>],
        grid_extras(r).dom() == Set::<int>::empty(),
        grid_cells(r).dom() == Set::<int>::empty(),
        grid_line_marks(r).dom() == Set::<int>::empty(),
        grid_dirty_lines(r) == Set::<int>::empty(),
        is_plain_pen(grid_pen(r)),
        grid_saved_cursor(r) == (Pos { row: 0, col: 0 }),
        is_plain_pen(grid_saved_pen(r)),
        grid_history_limit(r) == 0,
        grid_lines_evicted(r) == 0,
        grid_reflow(r) == (false, None::<(u64, Seq<i64>)>),
        grid_columns(r) == 0,
        grid_lines(r) == 0,
        grid_total_lines(r) == 0,
        grid_display_offset(r) == 0,
        grid_cursor(r) == (Pos { row: 0, col: 0 }),
{
    Grid::new(0, 0, 0)
}

/// `Grid::clone`: a grid with the same cells, styles, rare data, marks, size,
/// offset, cursors, history and record of the last reflow.
#[verifier::external_body]
pub(crate) fn copy_grid(grid: &Grid<Square>) -> (r: Grid<Square>)
    ensures
        grid_cells(r) == grid_cells(*grid),
        grid_styles(r) == grid_styles(*grid),
        grid_underlines(r) == grid_underlines(*grid),
        grid_extras(r) == grid_extras(*grid),
        grid_line_marks(r) == grid_line_marks(*grid),
        grid_dirty_lines(r) == grid_dirty_lines(*grid),
        grid_pen(r) == grid_pen(*grid),
        grid_saved_cursor(r) == grid_saved_cursor(*grid),
        grid_saved_pen(r) == grid_saved_pen(*grid),
        grid_history_limit(r) == grid_history_limit(*grid),
        grid_lines_evicted(r) == grid_lines_evicted(*grid),
        grid_reflow(r) == grid_reflow(*grid),
        grid_columns(r) == grid_columns(*grid),
        grid_lines(r) == grid_lines(*grid),
        grid_total_lines(r) == grid_total_lines(*grid),
        grid_display_offset(r) == grid_display_offset(*grid),
        grid_cursor(r) == grid_cursor(*grid),
{
    grid.clone()
}

/// `Grid::columns`.
#[verifier::external_body]
pub(crate) fn columns(grid: &Grid<Square>) -> (r: usize)
    ensures
        r == grid_columns(*grid),
{
    grid.columns()
}

/// `Grid::screen_lines`.
#[verifier::external_body]
pub(crate) fn screen_lines(grid: &Grid<Square>) -> (r: usize)
    ensures
        r == grid_lines(*grid),
{
    grid.screen_lines()
}

/// `Grid::total_lines`.
#[verifier::external_body]
pub(crate) fn total_lines(grid: &Grid<Square>) -> (r: usize)
    ensures
        r == grid_total_lines(*grid),
{
    grid.total_lines()
}

/// `Grid::display_offset`.
#[verifier::external_body]
pub(crate) fn display_offset(grid: &Grid<Square>) -> (r: usize)
    ensures
        r == grid_display_offset(*grid),
{
    grid.display_offset()
}

/// The position in the `cursor` of a `Grid`.
#[verifier::external_body]
pub(crate) fn cursor_position(grid: &Grid<Square>) -> (r: Pos)
    ensures
        r == grid_cursor(*grid),
{
    Pos { row: grid.cursor.pos.row.0, col: grid.cursor.pos.col.0 }
}

/// `Row::len` of a line of the grid, screen or history.
#[verifier::external_body]
pub(crate) fn row_length(grid: &Grid<Square>, row: i32) -> (r: usize)
    requires
        lines_fit(grid_view(*grid)),
        grid_lines(*grid) - grid_total_lines(*grid) <= row < grid_lines(*grid),
    ensures
        r == grid_cells(*grid)[row as int].len(),
{
    grid[Line(row)].len()
}

/// Indexing a `Grid` by a position that it has a cell at.
#[verifier::external_body]
pub(crate) fn square_at(grid: &Grid<Square>, pos: Pos) -> (r: Square)
    requires
        lines_fit(grid_view(*grid)),
        covers(grid_view(*grid), pos.row as int, pos.col as int),
    ensures
        square_bits(r) == grid_cells(*grid)[pos.row as int][pos.col as int],
{
    grid[rio_vt::crosswords::pos::Pos::new(Line(pos.row), Column(pos.col))]
}

/// `Grid::cursor_cell`: the cell under the cursor. The call also notes in the
/// grid that the line may have been written to; all else stays as it is.
#[verifier::external_body]
pub(crate) fn cursor_cell(grid: &mut Grid<Square>) -> (r: Square)
    requires
        lines_fit(grid_view(*old(grid))),
        covers(
            grid_view(*old(grid)),
            grid_cursor(*old(grid)).row as int,
            grid_cursor(*old(grid)).col as int,
        ),
    ensures
        square_bits(r) == grid_cells(*old(grid))[grid_cursor(*old(grid)).row as int][grid_cursor(
            *old(grid),
        ).col as int],
        cursor_line_touched(*old(grid), *final(grid)),
{
    *grid.cursor_cell()
}

/// The items of `Grid::iter_from`: the cells behind `start`, to the end of the
/// screen.
#[verifier::external_body]
pub(crate) fn cells_from(grid: &Grid<Square>, start: Pos) -> (r: Vec<Cell>)
    requires
        walkable(grid_view(*grid)),
        covers(grid_view(*grid), start.row as int, start.col as int),
    ensures
        cell_views(r@) == cells_behind(grid_view(*grid), start),
{
    grid.iter_from(rio_vt::crosswords::pos::Pos::new(Line(start.row), Column(start.col)))
        .map(|i| Cell { pos: Pos { row: i.pos.row.0, col: i.pos.col.0 }, square: *i.square })
        .collect()
}

/// The items of `Grid::display_iter`: the cells of the displayed area.
#[verifier::external_body]
pub(crate) fn visible_cells(grid: &Grid<Square>) -> (r: Vec<Cell>)
    requires
        walkable(grid_view(*grid)),
    ensures
        cell_views(r@) == displayed_cells(grid_view(*grid)),
{
    grid.display_iter()
        .map(|i| Cell { pos: Pos { row: i.pos.row.0, col: i.pos.col.0 }, square: *i.square })
        .collect()
}

/// `Square::c`: the character of a cell.
#[verifier::external_body]
pub(crate) fn square_char(square: Square) -> (r: char)
    ensures
        r == bits_char(square_bits(square)),
{
    square.c()
}

/// `Square::default`: all bits zero.
#[verifier::external_body]
pub(crate) fn default_square() -> (r: Square)
    ensures
        square_bits(r) == 0,
{
    Square::default()
}

/// Whether the grid can be walked cell by cell.
pub fn is_walkable(grid: &Grid<Square>) -> (r: bool)
    ensures
        r == walkable(grid_view(*grid)),
{
    let lines: usize = screen_lines(grid);
    let total: usize = total_lines(grid);
    columns(grid) >= 1 && lines <= total && total <= i32::MAX as usize && display_offset(grid)
        <= i32::MAX as usize
}

/// Whether the grid has a cell at `pos`, and line numbers that fit.
pub fn has_cell(grid: &Grid<Square>, pos: Pos) -> (r: bool)
    ensures
        r == (lines_fit(grid_view(*grid)) && covers(
            grid_view(*grid),
            pos.row as int,
            pos.col as int,
        )),
{
    let lines: usize = screen_lines(grid);
    let total: usize = total_lines(grid);
    if lines > total || total > i32::MAX as usize {
        return false;
    }
    let bottom: i64 = lines as i64;
    let top: i64 = lines as i64 - total as i64;
    let row: i64 = pos.row as i64;
    top <= row && row < bottom && pos.col < row_length(grid, pos.row)
}

/// Whether the cursor is on a cell of the grid.
pub open spec fn cursor_on_grid(grid: GridView) -> bool {
    lines_fit(grid) && covers(grid, grid.cursor.row as int, grid.cursor.col as int)
}

/// Whether the cursor is on a cell of the grid.
pub fn is_cursor_on_grid(grid: &Grid<Square>) -> (r: bool)
    ensures
        r == cursor_on_grid(grid_view(*grid)),
{
    has_cell(grid, cursor_position(grid))
}

/// Whether every line has a cell in every column and none beyond.
pub open spec fn rectangular(grid: GridView) -> bool {
    &&& grid.columns >= 1
    &&& forall|row: int|
        grid.lines - grid.total_lines <= row < grid.lines ==> (#[trigger] grid.cells[row]).len()
            == grid.columns
}

/// The number of a position in reading order, with 0 for the top left of the
/// screen.
pub open spec fn reading_index(grid: GridView, row: int, col: int) -> int {
    row * grid.columns + col
}

/// The cell with a number in reading order.
pub open spec fn cell_at_index(grid: GridView, index: int) -> CellView {
    CellView {
        pos: Pos { row: (index / grid.columns) as i32, col: (index % grid.columns) as usize },
        bits: grid.cells[index / grid.columns][index % grid.columns],
    }
}

/// A position can be told from its number in reading order.
pub proof fn reading_index_inverts(grid: GridView, row: int, col: int)
    requires
        0 <= col < grid.columns,
    ensures
        reading_index(grid, row, col) / grid.columns == row,
        reading_index(grid, row, col) % grid.columns == col,
{
    vstd::arithmetic::div_mod::lemma_fundamental_div_mod_converse(
        reading_index(grid, row, col),
        grid.columns,
        row,
        col,
    );
}

/// A walk through a rectangular grid gives every cell in reading order, from
/// the one behind its start to the last one of its last line.
pub proof fn walk_is_in_reading_order(grid: GridView, row: int, col: int, end_row: int)
    requires
        rectangular(grid),
        0 <= col < grid.columns,
        end_row < grid.lines,
        grid.lines - grid.total_lines <= row || (col == grid.columns - 1 && grid.lines
            - grid.total_lines <= row + 1),
        row <= end_row,
    ensures
        walk(grid, row, col, end_row).len() == reading_index(grid, end_row, grid.columns - 1)
            - reading_index(grid, row, col),
        forall|i: int|
            0 <= i < walk(grid, row, col, end_row).len() ==> #[trigger] walk(
                grid,
                row,
                col,
                end_row,
            )[i] == cell_at_index(grid, reading_index(grid, row, col) + 1 + i),
    decreases end_row - row, line_length(grid, row) - col,
{
    let columns = grid.columns;
    let start = reading_index(grid, row, col);
    if row == end_row && col == columns - 1 {
    } else {
        let next_row = if col == columns - 1 {
            row + 1
        } else {
            row
        };
        let next_col = if col == columns - 1 {
            0
        } else {
            col + 1
        };
        assert(grid.cells[next_row].len() == columns);
        assert(reading_index(grid, next_row, next_col) == start + 1) by {
            assert((row + 1) * columns == row * columns + columns) by (nonlinear_arith);
        }
        walk_is_in_reading_order(grid, next_row, next_col, end_row);
        reading_index_inverts(grid, next_row, next_col);
        let rest = walk(grid, next_row, next_col, end_row);
        let all = walk(grid, row, col, end_row);
        assert forall|i: int| 0 <= i < all.len() implies #[trigger] all[i] == cell_at_index(
            grid,
            start + 1 + i,
        ) by {
            if i > 0 {
                assert(all[i] == rest[i - 1]);
            }
        }
    }
}

/// The displayed area of a rectangular grid has every column of as many lines
/// as the screen has, beginning as many lines above the screen as the display
/// is scrolled back.
pub proof fn display_shows_every_cell(grid: GridView)
    requires
        rectangular(grid),
        grid.lines >= 1,
        0 <= grid.display_offset <= grid.total_lines - grid.lines,
    ensures
        displayed_cells(grid).len() == grid.lines * grid.columns,
        forall|i: int|
            0 <= i < displayed_cells(grid).len() ==> #[trigger] displayed_cells(grid)[i]
                == cell_at_index(grid, reading_index(grid, -grid.display_offset, 0) + i),
{
    let columns = grid.columns;
    let top = -grid.display_offset;
    let end_row = top - 1 + grid.lines;
    walk_is_in_reading_order(grid, top - 1, columns - 1, end_row);
    assert((top - 1) * columns == top * columns - columns) by (nonlinear_arith);
    assert(end_row * columns == top * columns - columns + grid.lines * columns) by (nonlinear_arith)
        requires
            end_row == top - 1 + grid.lines,
    ;
}

} // verus!
