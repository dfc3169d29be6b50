//! What the view shows: a snapshot of the terminal.
use crate::colors::{AnsiColor, BACKGROUND, FOREGROUND};
use crate::grid::{
    bits_char, cell_at_index, cell_views, cells_behind, cells_from, covers, default_square,
    displayed_cells, empty_grid, grid_dirty_lines, grid_view, is_plain_pen, lines_fit, reading_index, reading_index_inverts,
    rectangular, square_at, square_bits, square_char, visible_cells, walk_is_in_reading_order,
    walkable, Cell, CellView, GridView,
};
use crate::mode::TermMode;
use crate::point::{at_or_before, Match, Pos};
use crate::selection::{range_contains, SelectionRange};
use crate::size::{LayoutSize, TerminalSize, DEFAULT_LAYOUT_HEIGHT, DEFAULT_LAYOUT_WIDTH};
use rio_vt::crosswords::grid::Grid;
use rio_vt::crosswords::square::Square;
use vstd::prelude::*;

verus! {

/// `String::push` appends one character.
pub assume_specification[ String::push ](s: &mut String, c: char)
    ensures
        final(s)@ == old(s)@.push(c),
;

/// A snapshot of the terminal, as the view shows it.
pub struct RenderableContent {
    pub grid: Grid<Square>,
    pub hovered_hyperlink: Option<Match>,
    pub selectable_range: Option<SelectionRange>,
    pub cursor: Square,
    pub terminal_mode: TermMode,
    pub terminal_size: TerminalSize,
}

impl Default for RenderableContent {
    fn default() -> (r: RenderableContent)
        ensures
            grid_view(r.grid).styles == seq![
                (AnsiColor::Named(FOREGROUND), AnsiColor::Named(BACKGROUND), 0u16),
            ],
            grid_view(r.grid).underlines == seq![None::<AnsiColor>],
            grid_view(r.grid).extras.dom() == Set::<int>::empty(),
            grid_view(r.grid).cells.dom() == Set::<int>::empty(),
            grid_view(r.grid).line_marks.dom() == Set::<int>::empty(),
            grid_dirty_lines(r.grid) == Set::<int>::empty(),
            is_plain_pen(grid_view(r.grid).pen),
            grid_view(r.grid).saved_cursor == (Pos { row: 0, col: 0 }),
            is_plain_pen(grid_view(r.grid).saved_pen),
            grid_view(r.grid).history_limit == 0,
            grid_view(r.grid).lines_evicted == 0,
            grid_view(r.grid).reflow == (false, None::<(u64, Seq<i64>)>),
            grid_view(r.grid).columns == 0,
            grid_view(r.grid).lines == 0,
            grid_view(r.grid).total_lines == 0,
            grid_view(r.grid).display_offset == 0,
            grid_view(r.grid).cursor == (Pos { row: 0, col: 0 }),
            r.hovered_hyperlink is None,
            r.selectable_range is None,
            square_bits(r.cursor) == 0,
            r.terminal_mode.bits == 0,
            r.terminal_size.cell_width == 1,
            r.terminal_size.cell_height == 1,
            r.terminal_size.num_cols() == 80,
            r.terminal_size.num_lines() == 50,
            r.terminal_size.layout == (LayoutSize {
                width: DEFAULT_LAYOUT_WIDTH,
                height: DEFAULT_LAYOUT_HEIGHT,
            }),
    {
        RenderableContent {
            grid: empty_grid(),
            hovered_hyperlink: None,
            selectable_range: None,
            cursor: default_square(),
            terminal_mode: TermMode::empty(),
            terminal_size: TerminalSize::default(),
        }
    }
}

/// The characters of some cells.
pub open spec fn cell_chars(cells: Seq<CellView>) -> Seq<char> {
    cells.map_values(|cell: CellView| bits_char(cell.bits))
}

/// The characters of those cells that are selected, in order.
pub open spec fn selected_chars(cells: Seq<CellView>, range: SelectionRange) -> Seq<char> {
    cell_chars(cells.filter(|cell: CellView| range_contains(range, cell.pos)))
}

/// The first cells, up to and including the first one at `end`; all of them
/// where none is there.
pub open spec fn cells_through(cells: Seq<CellView>, end: Pos) -> Seq<CellView>
    decreases cells.len(),
{
    if cells.len() == 0 {
        seq![]
    } else if cells[0].pos == end {
        seq![cells[0]]
    } else {
        seq![cells[0]] + cells_through(cells.drop_first(), end)
    }
}

/// The text of a link: the character of its first cell, and those of the cells
/// behind it up to its end. A link of one cell runs on to the end of the
/// screen.
pub open spec fn link_chars(grid: GridView, link: Match) -> Seq<char> {
    seq![bits_char(grid.cells[link.start.row as int][link.start.col as int])] + cell_chars(
        cells_through(cells_behind(grid, link.start), link.end),
    )
}

/// Whether the cells of a link can be read: the grid can be walked, and the
/// link begins on it.
pub open spec fn link_readable(grid: GridView, link: Match) -> bool {
    walkable(grid) && covers(grid, link.start.row as int, link.start.col as int)
}

/// The characters of those cells that are selected.
pub fn selected_text(cells: &Vec<Cell>, range: SelectionRange) -> (r: String)
    ensures
        r@ == selected_chars(cell_views(cells@), range),
{
    let mut result: String = String::new();
    let ghost views = cell_views(cells@);
    let ghost selected = |cell: CellView| range_contains(range, cell.pos);
    let mut i: usize = 0;
    assert(views.take(0) =~= seq![]);
    assert(result@ =~= cell_chars(views.take(0).filter(selected))) by {
        reveal(Seq::filter);
    }
    while i < cells.len()
        invariant
            i <= cells.len(),
            views == cell_views(cells@),
            selected == (|cell: CellView| range_contains(range, cell.pos)),
            result@ == cell_chars(views.take(i as int).filter(selected)),
        decreases cells.len() - i,
    {
        let cell: &Cell = &cells[i];
        proof {
            reveal(Seq::filter);
            assert(views.take(i + 1).drop_last() =~= views.take(i as int));
            assert(views[i as int] == cell@);
        }
        if range.contains(cell.pos) {
            result.push(square_char(cell.square));
            assert(result@ =~= cell_chars(views.take(i + 1).filter(selected)));
        }
        i += 1;
    }
    assert(views.take(i as int) =~= views);
    result
}

/// Appends the characters of the first cells, up to and including the first
/// one at `end`.
pub fn push_cells_through(text: &mut String, cells: &Vec<Cell>, end: Pos)
    ensures
        final(text)@ == old(text)@ + cell_chars(cells_through(cell_views(cells@), end)),
{
    let ghost views = cell_views(cells@);
    let ghost before = text@;
    let mut i: usize = 0;
    assert(views.skip(0) =~= views);
    assert(before + cell_chars(cells_through(views, end)) =~= text@ + cell_chars(
        cells_through(views.skip(0), end),
    ));
    while i < cells.len()
        invariant
            i <= cells.len(),
            views == cell_views(cells@),
            before == old(text)@,
            before + cell_chars(cells_through(views, end)) == text@ + cell_chars(
                cells_through(views.skip(i as int), end),
            ),
        decreases cells.len() - i,
    {
        let cell: &Cell = &cells[i];
        let ghost rest = views.skip(i as int);
        let ghost so_far = text@;
        text.push(square_char(cell.square));
        proof {
            assert(rest[0] == cell@);
            assert(rest.drop_first() =~= views.skip(i + 1));
            assert(text@ =~= so_far + cell_chars(seq![rest[0]]));
        }
        if cell.pos.row == end.row && cell.pos.col == end.col {
            assert(cells_through(rest, end) == seq![rest[0]]);
            return ;
        }
        assert(so_far + cell_chars(cells_through(rest, end)) =~= text@ + cell_chars(
            cells_through(views.skip(i + 1), end),
        ));
        i += 1;
    }
    assert(text@ + cell_chars(cells_through(views.skip(i as int), end)) =~= text@);
}

impl RenderableContent {
    /// The text of a link in the shown grid.
    pub fn link_text(&self, link: Match) -> (url: String)
        requires
            link_readable(grid_view(self.grid), link),
        ensures
            url@ == link_chars(grid_view(self.grid), link),
    {
        let mut url: String = String::new();
        url.push(square_char(square_at(&self.grid, link.start)));
        let cells: Vec<Cell> = cells_from(&self.grid, link.start);
        push_cells_through(&mut url, &cells, link.end);
        assert(url@ =~= link_chars(grid_view(self.grid), link));
        url
    }

    /// The selected text of the displayed area; none where nothing is
    /// selected.
    pub fn selectable_content(&self) -> (r: String)
        requires
            self.selectable_range is Some ==> walkable(grid_view(self.grid)),
        ensures
            r@ == (match self.selectable_range {
                Some(range) => selected_chars(displayed_cells(grid_view(self.grid)), range),
                None => seq![],
            }),
    {
        match self.selectable_range {
            Some(range) => selected_text(&visible_cells(&self.grid), range),
            None => String::new(),
        }
    }
}

proof fn cells_through_is_prefix(cells: Seq<CellView>, end: Pos, k: int)
    requires
        0 <= k < cells.len(),
        cells[k].pos == end,
        forall|i: int| 0 <= i < k ==> (#[trigger] cells[i]).pos != end,
    ensures
        cells_through(cells, end) == cells.take(k + 1),
    decreases k,
{
    if k == 0 {
        assert(cells.take(1) =~= seq![cells[0]]);
    } else {
        let rest = cells.drop_first();
        cells_through_is_prefix(rest, end, k - 1);
        assert(cells[0].pos != end);
        assert(cells.take(k + 1) =~= seq![cells[0]] + rest.take(k));
    }
}

/// The text of a link in a rectangular grid is the characters of its cells, in
/// reading order, from its first to its last.
pub proof fn link_text_is_characters_of_its_cells(grid: GridView, link: Match)
    requires
        rectangular(grid),
        lines_fit(grid),
        covers(grid, link.start.row as int, link.start.col as int),
        covers(grid, link.end.row as int, link.end.col as int),
        link.start != link.end,
        at_or_before(link.start, link.end),
    ensures
        ({
            let first = reading_index(grid, link.start.row as int, link.start.col as int);
            let last = reading_index(grid, link.end.row as int, link.end.col as int);
            link_chars(grid, link) == Seq::new(
                (last - first + 1) as nat,
                |i: int| bits_char(cell_at_index(grid, first + i).bits),
            )
        }),
{
    let columns = grid.columns;
    let start_row = link.start.row as int;
    let end_row = link.end.row as int;
    let first = reading_index(grid, start_row, link.start.col as int);
    let last = reading_index(grid, end_row, link.end.col as int);
    let bottom = grid.lines - 1;
    let cells = cells_behind(grid, link.start);
    assert(grid.cells[start_row].len() == columns);
    assert(grid.cells[end_row].len() == columns);
    walk_is_in_reading_order(grid, start_row, link.start.col as int, bottom);
    reading_index_inverts(grid, start_row, link.start.col as int);
    reading_index_inverts(grid, end_row, link.end.col as int);
    assert(first < last) by {
        if start_row < end_row {
            assert((start_row + 1) * columns <= end_row * columns) by (nonlinear_arith)
                requires
                    start_row + 1 <= end_row,
                    columns >= 1,
            ;
            assert((start_row + 1) * columns == start_row * columns + columns)
                by (nonlinear_arith);
        }
    }
    assert(last <= reading_index(grid, bottom, columns - 1)) by {
        assert(end_row * columns <= bottom * columns) by (nonlinear_arith)
            requires
                end_row <= bottom,
                columns >= 1,
        ;
    }
    let k = last - first - 1;
    assert(cells[k] == cell_at_index(grid, last));
    assert forall|i: int| 0 <= i < k implies (#[trigger] cells[i]).pos != link.end by {
        let index = first + 1 + i;
        assert(cells[i] == cell_at_index(grid, index));
        vstd::arithmetic::div_mod::lemma_fundamental_div_mod(index, columns);
        vstd::arithmetic::div_mod::lemma_fundamental_div_mod(last, columns);
        vstd::arithmetic::div_mod::lemma_div_is_ordered(first, index, columns);
        vstd::arithmetic::div_mod::lemma_div_is_ordered(index, last, columns);
        vstd::arithmetic::div_mod::lemma_mod_bound(index, columns);
        if cells[i].pos == link.end {
            assert(index / columns == end_row);
            assert(index % columns == link.end.col);
        }
    }
    cells_through_is_prefix(cells, link.end, k);
    assert(link_chars(grid, link) =~= Seq::new(
        (last - first + 1) as nat,
        |i: int| bits_char(cell_at_index(grid, first + i).bits),
    )) by {
        assert forall|i: int| 0 <= i < last - first + 1 implies link_chars(grid, link)[i]
            == bits_char(cell_at_index(grid, first + i).bits) by {
            if i > 0 {
                assert(cells.take(k + 1)[i - 1] == cells[i - 1]);
                assert(cells[i - 1] == cell_at_index(grid, first + i));
            }
        }
    }
}

/// A range that every cell lies in selects the text of all of them.
pub proof fn whole_range_selects_every_cell(cells: Seq<CellView>, range: SelectionRange)
    requires
        forall|i: int| 0 <= i < cells.len() ==> range_contains(range, (#[trigger] cells[i]).pos),
    ensures
        selected_chars(cells, range) == cell_chars(cells),
{
    filter_keeps_all(cells, |cell: CellView| range_contains(range, cell.pos));
}

/// A range that no cell lies in selects nothing.
pub proof fn distant_range_selects_nothing(cells: Seq<CellView>, range: SelectionRange)
    requires
        forall|i: int| 0 <= i < cells.len() ==> !range_contains(range, (#[trigger] cells[i]).pos),
    ensures
        selected_chars(cells, range) == Seq::<char>::empty(),
    decreases cells.len(),
{
    reveal(Seq::filter);
    if cells.len() > 0 {
        distant_range_selects_nothing(cells.drop_last(), range);
    }
    assert(selected_chars(cells, range) =~= seq![]);
}

proof fn filter_keeps_all(cells: Seq<CellView>, keep: spec_fn(CellView) -> bool)
    requires
        forall|i: int| 0 <= i < cells.len() ==> keep(#[trigger] cells[i]),
    ensures
        cells.filter(keep) == cells,
    decreases cells.len(),
{
    reveal(Seq::filter);
    if cells.len() > 0 {
        filter_keeps_all(cells.drop_last(), keep);
        assert(cells.drop_last().push(cells.last()) =~= cells);
    }
}

} // verus!
