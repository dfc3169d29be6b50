//! Finding the link at a point.
use rio_vt::ansi::CursorShape;
use rio_vt::crosswords::grid::{Grid, Scroll as OuterScroll};
use rio_vt::crosswords::pos::{Column, Direction, Line, Pos as OuterPos};
use rio_vt::crosswords::search::RegexIter;
use rio_vt::crosswords::square::Square;
use rio_vt::crosswords::{Crosswords, CrosswordsSize};
use rio_vt::event::{VoidListener, WindowId};
use terminal_backend::backend::{Backend, Command, Effect, LinkAction, Outcome};
use terminal_backend::event::Action;
use terminal_backend::links::{does_viewport_fit, LinkSearch, SearchStep, SEARCH_MARGIN, URL_REGEX};
use terminal_backend::mode::TermMode;
use terminal_backend::point::{Match, Pos};

fn at(row: i32, col: usize) -> Pos {
    Pos { row, col }
}

fn link(start: Pos, end: Pos) -> Match {
    Match { start, end }
}

fn search(point: Pos) -> LinkSearch {
    LinkSearch { viewport_start: 0, viewport_end: 9, point, started: false }
}

fn find(search: LinkSearch, matches: &[Match]) -> Option<Match> {
    search.find(&matches.to_vec())
}

fn outer(pos: Pos) -> OuterPos {
    OuterPos::new(Line(pos.row), Column(pos.col))
}

fn inner(pos: OuterPos) -> Pos {
    at(pos.row.0, pos.col.0)
}

fn terminal(text: &str) -> Crosswords<VoidListener> {
    let mut term = Crosswords::new(
        CrosswordsSize::new(20, 5),
        CursorShape::Block,
        VoidListener {},
        WindowId::from(1),
        0,
        100,
    );
    for (i, c) in text.chars().enumerate() {
        term.grid[outer(at(1, i))].set_c(c);
    }
    term
}

fn find_in(term: &Crosswords<VoidListener>, backend: &Backend, point: Pos) -> Option<Match> {
    let search = LinkSearch::new(&term.grid, point);
    let left = inner(term.line_search_left(outer(search.top())));
    let right = inner(term.line_search_right(outer(search.bottom())));
    let (start, end) = search.bounds(left, right);
    let mut regex = backend.url_regex().clone();
    let matches: Vec<Match> =
        RegexIter::new(outer(start), outer(end), Direction::Right, term, &mut regex)
            .map(|found| link(inner(*found.start()), inner(*found.end())))
            .collect();
    search.find(&matches)
}

#[test]
fn first_match_at_the_point_is_found() {
    let first = link(at(1, 0), at(1, 5));
    let second = link(at(2, 0), at(3, 5));
    assert_eq!(find(search(at(2, 9)), &[first, second]), Some(second));
    assert_eq!(find(search(at(1, 5)), &[first, second]), Some(first));
    assert_eq!(find(search(at(1, 6)), &[first, second]), None);
    assert_eq!(find(search(at(3, 6)), &[first, second]), None);
}

#[test]
fn matches_are_read_line_by_line() {
    let wrapped = link(at(2, 15), at(4, 3));
    assert_eq!(find(search(at(3, 0)), &[wrapped]), Some(wrapped));
    assert_eq!(find(search(at(2, 14)), &[wrapped]), None);
    assert_eq!(find(search(at(4, 3)), &[wrapped]), Some(wrapped));
    assert_eq!(find(search(at(4, 4)), &[wrapped]), None);
}

#[test]
fn matches_above_the_displayed_area_are_passed_over() {
    let above = link(at(-3, 0), at(-1, 5));
    let mut search = search(at(-2, 0));
    assert_eq!(search.examine(&above), SearchStep::Continue);
    assert!(!search.started);
    let reaching = link(at(-1, 6), at(0, 5));
    assert_eq!(search.examine(&reaching), SearchStep::Continue);
    assert!(search.started);
    assert_eq!(search.examine(&above), SearchStep::Found);
}

#[test]
fn match_below_the_displayed_area_ends_the_search() {
    let below = link(at(10, 0), at(10, 5));
    let inside = link(at(9, 0), at(11, 5));
    assert_eq!(find(search(at(10, 2)), &[below]), None);
    assert_eq!(find(search(at(10, 2)), &[inside]), Some(inside));
    assert_eq!(find(search(at(9, 2)), &[below, inside]), None);
}

#[test]
fn search_starts_at_the_displayed_area() {
    let mut grid: Grid<Square> = Grid::new(5, 20, 100);
    let fresh = LinkSearch::new(&grid, at(1, 2));
    assert_eq!(
        fresh,
        LinkSearch { viewport_start: 0, viewport_end: 4, point: at(1, 2), started: false }
    );
    grid.scroll_up(&(Line(0)..Line(5)), 3);
    grid.scroll_display(OuterScroll::Delta(2));
    assert!(does_viewport_fit(&grid));
    let scrolled = LinkSearch::new(&grid, at(1, 2));
    assert_eq!((scrolled.viewport_start, scrolled.viewport_end), (-2, 2));
    assert_eq!((scrolled.top(), scrolled.bottom()), (at(-2, 0), at(2, 0)));
}

#[test]
fn bounds_leave_out_what_is_too_far() {
    let search = search(at(0, 0));
    assert_eq!(SEARCH_MARGIN, 100);
    assert_eq!(
        search.bounds(at(-5, 0), at(12, 19)),
        (at(-5, 0), at(12, 19))
    );
    assert_eq!(
        search.bounds(at(-101, 3), at(110, 19)),
        (at(-100, 3), at(109, 19))
    );
}

#[test]
fn pattern_is_compiled() {
    assert!(URL_REGEX.starts_with("(ipfs:|ipns:"));
    let mut term = terminal("");
    assert!(Backend::new(&mut term.grid, TermMode::empty()).is_ok());
}

#[test]
fn link_under_the_mouse_is_found_and_opened() {
    let mut term = terminal("see https://a.b/c !");
    let mut backend = Backend::new(&mut term.grid, TermMode::empty()).ok().unwrap();
    let mode = TermMode { bits: term.mode().bits() };

    let asked = backend.handle(
        &term.grid,
        &mut term.selection,
        mode,
        Command::ProcessLink(LinkAction::Hover, at(1, 10)),
    );
    assert_eq!(
        asked,
        Outcome { action: Action::Ignore, effects: vec![Effect::FindLink(at(1, 10))] }
    );
    assert_eq!(backend.renderable_content().hovered_hyperlink, None);

    let found = find_in(&term, &backend, at(1, 10));
    assert_eq!(found, Some(link(at(1, 4), at(1, 16))));
    assert_eq!(find_in(&term, &backend, at(1, 2)), None);
    assert_eq!(find_in(&term, &backend, at(2, 10)), None);

    backend.hover(found);
    let open = Command::ProcessLink(LinkAction::Open, at(0, 0));
    assert!(backend.is_admitted(&term.grid, &term.selection, mode, &open));
    let opened = backend.handle(&term.grid, &mut term.selection, mode, open);
    assert_eq!(
        opened,
        Outcome {
            action: Action::Ignore,
            effects: vec![Effect::OpenLink("https://a.b/c".to_string())]
        }
    );
    assert_eq!(backend.renderable_content().hovered_hyperlink, found);
}

#[test]
fn cleared_link_does_not_open() {
    let mut term = terminal("see https://a.b/c !");
    let mut backend = Backend::new(&mut term.grid, TermMode::empty()).ok().unwrap();
    backend.hover(Some(link(at(1, 4), at(1, 16))));
    let cleared = backend.process_link_action(LinkAction::Clear, at(1, 5));
    assert!(cleared.effects.is_empty());
    assert_eq!(backend.renderable_content().hovered_hyperlink, None);
    let opened = backend.process_link_action(LinkAction::Open, at(1, 5));
    assert_eq!(opened, Outcome { action: Action::Ignore, effects: vec![] });
}

#[test]
fn link_off_the_grid_is_not_admitted() {
    let mut term = terminal("");
    let mut backend = Backend::new(&mut term.grid, TermMode::empty()).ok().unwrap();
    backend.hover(Some(link(at(7, 0), at(7, 3))));
    let open = Command::ProcessLink(LinkAction::Open, at(7, 0));
    assert!(!backend.is_admitted(&term.grid, &None, TermMode::empty(), &open));
    backend.hover(None);
    assert!(backend.is_admitted(&term.grid, &None, TermMode::empty(), &open));
}

#[test]
fn matches_in_order_are_found_where_they_are_visible() {
    let matches = [
        link(at(-4, 0), at(-3, 2)),
        link(at(-1, 5), at(0, 2)),
        link(at(3, 0), at(3, 9)),
        link(at(9, 15), at(10, 4)),
        link(at(10, 6), at(10, 9)),
    ];
    for found in matches {
        let visible = found.end.row >= 0 && found.start.row <= 9;
        assert_eq!(
            find(search(found.start), &matches),
            if visible { Some(found) } else { None }
        );
    }
}

#[test]
fn search_without_matches_finds_nothing() {
    assert_eq!(find(search(at(0, 0)), &[]), None);
}

#[test]
fn search_that_is_over_needs_no_more_matches() {
    let hit = link(at(1, 0), at(1, 5));
    let other = link(at(0, 0), at(2, 5));
    let below = link(at(10, 0), at(10, 5));
    assert_eq!(find(search(at(1, 3)), &[hit]), Some(hit));
    assert_eq!(find(search(at(1, 3)), &[hit, other]), Some(hit));
    assert_eq!(find(search(at(1, 3)), &[below]), None);
    assert_eq!(find(search(at(1, 3)), &[below, other]), None);
    assert_eq!(find(search(at(1, 3)), &[other, below]), Some(other));
}

#[test]
fn search_that_has_begun_passes_over_nothing() {
    let above = link(at(-3, 0), at(-1, 5));
    let begun = LinkSearch { started: true, ..search(at(-2, 0)) };
    assert_eq!(find(begun, &[above]), Some(above));
    assert_eq!(find(search(at(-2, 0)), &[above]), None);
}
