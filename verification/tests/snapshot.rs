//! The shown grid, selected text and the text of links.
use rio_vt::crosswords::grid::{Grid, Scroll as OuterScroll};
use rio_vt::crosswords::pos::{Column, Line, Pos as OuterPos};
use rio_vt::crosswords::square::Square;
use rio_vt::crosswords::style::Style;
use terminal_backend::content::RenderableContent;
use terminal_backend::grid::{has_cell, is_cursor_on_grid, is_walkable};
use terminal_backend::point::{Match, Pos};
use terminal_backend::selection::SelectionRange;
use terminal_backend::size::TerminalSize;

fn at(row: i32, col: usize) -> Pos {
    Pos { row, col }
}

fn write(grid: &mut Grid<Square>, row: i32, col: usize, text: &str) {
    for (i, c) in text.chars().enumerate() {
        grid[OuterPos::new(Line(row), Column(col + i))].set_c(c);
    }
}

/// Three lines of five columns.
fn letters() -> Grid<Square> {
    let mut grid = Grid::new(3, 5, 10);
    write(&mut grid, 0, 0, "abcde");
    write(&mut grid, 1, 0, "fghij");
    write(&mut grid, 2, 0, "klmno");
    grid
}

/// The letters, with the first line moved to the history, and digits below.
fn scrolled() -> Grid<Square> {
    let mut grid = letters();
    grid.scroll_up(&(Line(0)..Line(3)), 1);
    write(&mut grid, 2, 0, "01234");
    grid
}

fn content(grid: Grid<Square>, range: Option<SelectionRange>) -> RenderableContent {
    let mut content = RenderableContent::default();
    content.grid = grid;
    content.selectable_range = range;
    content
}

fn range(start: Pos, end: Pos, is_block: bool) -> Option<SelectionRange> {
    Some(SelectionRange { start, end, is_block })
}

#[test]
fn default_content_is_empty() {
    let content = RenderableContent::default();
    assert!(!is_walkable(&content.grid));
    assert!(!is_cursor_on_grid(&content.grid));
    assert_eq!(content.hovered_hyperlink, None);
    assert_eq!(content.selectable_range, None);
    assert_eq!(content.cursor.raw(), 0);
    assert_eq!(content.terminal_mode.bits, 0);
    assert_eq!(content.terminal_size.columns(), TerminalSize::default().columns());
    assert_eq!(content.selectable_content(), "");
}

#[test]
fn cells_of_the_screen_and_the_history() {
    let grid = scrolled();
    assert!(is_walkable(&grid));
    assert!(is_cursor_on_grid(&grid));
    assert!(has_cell(&grid, at(0, 0)));
    assert!(has_cell(&grid, at(2, 4)));
    assert!(has_cell(&grid, at(-1, 4)));
    assert!(!has_cell(&grid, at(-2, 0)));
    assert!(!has_cell(&grid, at(3, 0)));
    assert!(!has_cell(&grid, at(0, 5)));
}

#[test]
fn nothing_selected() {
    assert_eq!(content(letters(), None).selectable_content(), "");
}

#[test]
fn selected_stretch() {
    let selected = content(letters(), range(at(0, 3), at(2, 1), false));
    assert_eq!(selected.selectable_content(), "defghijkl");
}

#[test]
fn selected_stretch_within_a_line() {
    let selected = content(letters(), range(at(1, 1), at(1, 3), false));
    assert_eq!(selected.selectable_content(), "ghi");
}

#[test]
fn selected_block() {
    let selected = content(letters(), range(at(0, 1), at(2, 2), true));
    assert_eq!(selected.selectable_content(), "bcghlm");
}

#[test]
fn whole_range_selects_everything() {
    let selected = content(letters(), range(at(0, 0), at(2, 4), false));
    assert_eq!(selected.selectable_content(), "abcdefghijklmno");
}

#[test]
fn range_outside_the_displayed_area_selects_nothing() {
    let selected = content(letters(), range(at(7, 0), at(9, 4), false));
    assert_eq!(selected.selectable_content(), "");
    let history = content(scrolled(), range(at(-1, 0), at(-1, 4), false));
    assert_eq!(history.selectable_content(), "");
}

#[test]
fn displayed_area_follows_the_offset() {
    let mut grid = scrolled();
    grid.scroll_display(OuterScroll::Delta(1));
    let selected = content(grid, range(at(-1, 0), at(9, 4), false));
    assert_eq!(selected.selectable_content(), "abcdefghijklmno");
    let screen = content(scrolled(), range(at(-1, 0), at(9, 4), false));
    assert_eq!(screen.selectable_content(), "fghijklmno01234");
}

#[test]
fn link_within_a_line() {
    let content = content(letters(), None);
    assert_eq!(content.link_text(Match { start: at(1, 1), end: at(1, 3) }), "ghi");
}

#[test]
fn link_over_lines() {
    let content = content(letters(), None);
    assert_eq!(content.link_text(Match { start: at(0, 4), end: at(2, 0) }), "efghijk");
}

#[test]
fn link_from_the_history() {
    let content = content(scrolled(), None);
    assert_eq!(content.link_text(Match { start: at(-1, 3), end: at(0, 1) }), "defg");
}

#[test]
fn link_to_the_last_cell() {
    let content = content(letters(), None);
    assert_eq!(content.link_text(Match { start: at(2, 3), end: at(2, 4) }), "no");
}

#[test]
fn link_of_one_cell_runs_to_the_end_of_the_screen() {
    let content = content(letters(), None);
    assert_eq!(content.link_text(Match { start: at(2, 1), end: at(2, 1) }), "lmno");
}

#[test]
fn link_text_keeps_wide_characters() {
    let mut grid = letters();
    write(&mut grid, 1, 1, "\u{e9}\u{4e2d}\u{1f600}");
    let content = content(grid, None);
    assert_eq!(
        content.link_text(Match { start: at(1, 0), end: at(1, 4) }),
        "f\u{e9}\u{4e2d}\u{1f600}j"
    );
}

#[test]
fn default_content_has_the_default_style_only() {
    let content = RenderableContent::default();
    assert!(content.grid.style_set.styles() == [Style::default()]);
    assert!(content.grid.extras_table.get(0).is_none());
    assert!(content.grid.extras_table.get(1).is_none());
    assert_eq!(content.grid.cursor.template.raw(), 0);
    assert!(!content.grid.cursor.should_wrap);
    assert!(content.grid.saved_cursor == content.grid.cursor);
    assert_eq!(content.grid.lines_evicted(), 0);
    assert!(content.grid.reflow_remap.is_none() && !content.grid.track_reflow_remap);
}
