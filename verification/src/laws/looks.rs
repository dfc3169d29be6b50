//! What is painted, selected and read of the grid.
use crate::colors::{paint, style_bg, style_fg, style_flags, style_views, AnsiColor};
use crate::content::{cell_chars, cells_through, link_chars, selected_chars};
use crate::grid::{
    bits_char, cell_at_index, cells_behind, covers, lines_fit, reading_index,
    reading_index_inverts, rectangular, walk_is_in_reading_order, CellView, GridView,
};
use crate::point::{Match, Pos};
use crate::selection::SelectionRange;
use rio_vt::crosswords::style::Style;
use vstd::prelude::*;

verus! {

/// A text cell is painted in the foreground and the background of its style,
/// and with its flags, whatever they are; one whose style is not in the table
/// in the colors of the theme and without flags.
pub proof fn text_is_painted_in_its_style(bits: u64, styles: Seq<Style>)
    requires
        bits >> 30 & 3 == 0,
    ensures
        ({
            let id = (bits >> 32 & 0xffff) as int;
            let (fg, bg, flags) = paint(bits, style_views(styles));
            if id < styles.len() {
                fg == style_fg(styles[id]) && bg == style_bg(styles[id]) && flags == style_flags(
                    styles[id],
                )
            } else {
                fg == AnsiColor::Named(256) && bg == AnsiColor::Named(257) && flags == 0
            }
        }),
{
    assert(bits >> 32 & 0xffff <= 0xffff) by (bit_vector);
}

/// A table of styles holds the colors and flags of each style, in order.
pub proof fn style_table_holds_every_style(styles: Seq<Style>, id: int)
    requires
        0 <= id < styles.len(),
    ensures
        style_views(styles).len() == styles.len(),
        style_views(styles)[id].0 == style_fg(styles[id]),
        style_views(styles)[id].1 == style_bg(styles[id]),
        style_views(styles)[id].2 == style_flags(styles[id]),
{
}

/// A cell without text is painted in the foreground of the theme, on the
/// background that it carries, and without flags.
pub proof fn inline_background_is_painted(bits: u64, styles: Seq<(AnsiColor, AnsiColor, u16)>)
    requires
        bits >> 30 & 3 != 0,
    ensures
        paint(bits, styles).0 == AnsiColor::Named(256),
        paint(bits, styles).2 == 0,
        bits >> 30 & 3 == 1 ==> paint(bits, styles).1 == AnsiColor::Indexed(
            (bits >> 32 & 0xff) as u8,
        ),
        bits >> 30 & 3 != 1 ==> paint(bits, styles).1 == AnsiColor::Spec(
            (bits >> 32 & 0xff) as u8,
            (bits >> 40 & 0xff) as u8,
            (bits >> 48 & 0xff) as u8,
        ),
{
}

/// The text of a link is the character of its first cell and then those of the
/// cells behind it, one by one, until the cell at its end has been taken, or
/// to the last one where no cell is there.
pub proof fn link_text_runs_to_the_end_of_the_link(grid: GridView, link: Match)
    ensures
        ({
            let text = link_chars(grid, link);
            let cells = cells_behind(grid, link.start);
            let taken = text.len() - 1;
            &&& 0 <= taken <= cells.len()
            &&& text[0] == bits_char(grid.cells[link.start.row as int][link.start.col as int])
            &&& forall|i: int|
                0 <= i < taken ==> #[trigger] text[i + 1] == bits_char(cells[i].bits)
            &&& forall|i: int| 0 <= i < taken - 1 ==> (#[trigger] cells[i]).pos != link.end
            &&& taken == cells.len() || cells[taken - 1].pos == link.end
            &&& cells.len() > 0 ==> taken > 0
        }),
{
    let cells = cells_behind(grid, link.start);
    let through = cells_through(cells, link.end);
    cells_through_stops_at_the_end(cells, link.end);
    let text = link_chars(grid, link);
    assert forall|i: int| 0 <= i < through.len() implies #[trigger] text[i + 1] == bits_char(
        cells[i].bits,
    ) by {
        assert(text[i + 1] == cell_chars(through)[i]);
        assert(through[i] == cells[i]);
    }
}

proof fn cells_through_stops_at_the_end(cells: Seq<CellView>, end: Pos)
    ensures
        ({
            let through = cells_through(cells, end);
            let taken = through.len() as int;
            &&& taken <= cells.len()
            &&& forall|i: int| 0 <= i < taken ==> #[trigger] through[i] == cells[i]
            &&& forall|i: int| 0 <= i < taken - 1 ==> (#[trigger] cells[i]).pos != end
            &&& taken == cells.len() || (taken > 0 && cells[taken - 1].pos == end)
            &&& cells.len() > 0 ==> taken > 0
        }),
    decreases cells.len(),
{
    if cells.len() > 0 && cells[0].pos != end {
        let rest = cells.drop_first();
        cells_through_stops_at_the_end(rest, end);
        let through = cells_through(cells, end);
        let taken = through.len() as int;
        assert forall|i: int| 0 <= i < taken implies #[trigger] through[i] == cells[i] by {
            if i > 0 {
                assert(through[i] == cells_through(rest, end)[i - 1]);
                assert(rest[i - 1] == cells[i]);
            }
        }
        assert forall|i: int| 0 <= i < taken - 1 implies (#[trigger] cells[i]).pos != end by {
            if i > 0 {
                assert(rest[i - 1] == cells[i]);
            }
        }
        if taken > 1 && taken < cells.len() {
            assert(rest[taken - 2] == cells[taken - 1]);
        }
    }
}

/// A link whose end does not come behind its start, one of a single cell among
/// them, runs on to the last cell of the screen.
pub proof fn link_without_an_end_runs_to_the_last_cell(grid: GridView, link: Match)
    requires
        rectangular(grid),
        lines_fit(grid),
        grid.columns <= usize::MAX,
        covers(grid, link.start.row as int, link.start.col as int),
        link.end.row < link.start.row || (link.end.row == link.start.row && link.end.col
            <= link.start.col),
    ensures
        link_chars(grid, link).len() == reading_index(grid, grid.lines - 1, grid.columns - 1)
            - reading_index(grid, link.start.row as int, link.start.col as int) + 1,
{
    let columns = grid.columns;
    let row = link.start.row as int;
    let first = reading_index(grid, row, link.start.col as int);
    let cells = cells_behind(grid, link.start);
    assert(grid.cells[row].len() == columns);
    walk_is_in_reading_order(grid, row, link.start.col as int, grid.lines - 1);
    reading_index_inverts(grid, row, link.start.col as int);
    link_text_runs_to_the_end_of_the_link(grid, link);
    let taken = link_chars(grid, link).len() - 1;
    if taken != cells.len() {
        let index = first + taken;
        assert(cells[taken - 1] == cell_at_index(grid, index));
        vstd::arithmetic::div_mod::lemma_fundamental_div_mod(index, columns);
        vstd::arithmetic::div_mod::lemma_fundamental_div_mod(first, columns);
        vstd::arithmetic::div_mod::lemma_div_is_ordered(first, index, columns);
        vstd::arithmetic::div_mod::lemma_div_is_ordered(
            index,
            reading_index(grid, grid.lines - 1, columns - 1),
            columns,
        );
        reading_index_inverts(grid, grid.lines - 1, columns - 1);
        vstd::arithmetic::div_mod::lemma_mod_bound(index, columns);
        assert(taken > 0);
        assert(cells[taken - 1].pos == link.end);
        assert(row <= index / columns <= grid.lines - 1);
        assert(link.end.row == index / columns);
        assert(link.end.col == index % columns);
        assert(false);
    }
}

/// The selected text of a stretch of cells is that of its first part followed
/// by that of the rest; one cell gives its character when it is selected, and
/// nothing when it is not. It is selected when its row is in range and its
/// column is, which counts in a block in every row and else only in the row
/// that the range begins or ends in.
pub proof fn selected_text_goes_cell_by_cell(
    front: Seq<CellView>,
    back: Seq<CellView>,
    cell: CellView,
    range: SelectionRange,
)
    ensures
        selected_chars(front + back, range) == selected_chars(front, range) + selected_chars(
            back,
            range,
        ),
        selected_chars(seq![cell], range) == if range.start.row <= cell.pos.row && cell.pos.row
            <= range.end.row && !((range.is_block || cell.pos.row == range.start.row)
            && cell.pos.col < range.start.col) && !((range.is_block || cell.pos.row
            == range.end.row) && cell.pos.col > range.end.col) {
            seq![bits_char(cell.bits)]
        } else {
            seq![]
        },
        selected_chars(seq![], range) == Seq::<char>::empty(),
{
    let selected = |c: CellView| crate::selection::range_contains(range, c.pos);
    Seq::filter_distributes_over_add(front, back, selected);
    assert(selected_chars(front + back, range) =~= selected_chars(front, range) + selected_chars(
        back,
        range,
    ));
    reveal(Seq::filter);
    let none = Seq::<CellView>::empty();
    assert(none.filter(selected) =~= none);
    assert(selected_chars(seq![], range) =~= Seq::<char>::empty());
    assert(seq![cell].drop_last() =~= none);
    assert(seq![cell].filter(selected) =~= if selected(cell) {
        seq![cell]
    } else {
        none
    });
    assert(cell_chars(seq![cell]) =~= seq![bits_char(cell.bits)]);
}

} // verus!
