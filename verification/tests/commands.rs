//! What commands come to.
use rio_vt::ansi::CursorShape;
use rio_vt::config::colors::AnsiColor;
use rio_vt::crosswords::grid::row::SemanticPrompt;
use rio_vt::crosswords::grid::Scroll as OuterScroll;
use rio_vt::crosswords::pos::{Column, Line, Pos as OuterPos, Side as OuterSide};
use rio_vt::crosswords::square::{Extras, Hyperlink};
use rio_vt::crosswords::style::{Style, StyleFlags};
use rio_vt::crosswords::{Crosswords, CrosswordsSize, Mode};
use rio_vt::event::{RioEvent, VoidListener, WindowId};
use rio_vt::selection::{Selection, SelectionType as OuterSelectionType};
use terminal_backend::backend::{
    process_event, scroll, Backend, Command, Effect, LinkAction, Outcome, Pixel, Scroll, SCROLLBACK_HISTORY,
};
use terminal_backend::colors::{square_colors, AnsiColor as ShownColor, BACKGROUND};
use terminal_backend::event::{Action, TerminalEvent};
use terminal_backend::mode::TermMode;
use terminal_backend::mouse::{Modifiers, MouseButton};
use terminal_backend::point::{Match, Pos};
use terminal_backend::selection::{SelectionRange, SelectionType, Side};
use terminal_backend::size::{CellSize, GridFit, LayoutSize, WindowSize};

type Term = Crosswords<VoidListener>;

fn at(row: i32, col: usize) -> Pos {
    Pos { row, col }
}

fn terminal() -> Term {
    Crosswords::new(
        CrosswordsSize::new(80, 50),
        CursorShape::Block,
        VoidListener {},
        WindowId::from(1),
        0,
        SCROLLBACK_HISTORY,
    )
}

fn backend(term: &mut Term) -> Backend {
    let mode = TermMode { bits: term.mode().bits() };
    Backend::new(&mut term.grid, mode).ok().unwrap()
}

fn handle_in(backend: &mut Backend, term: &mut Term, mode: TermMode, cmd: Command) -> Outcome {
    assert!(backend.is_admitted(&term.grid, &term.selection, mode, &cmd));
    backend.handle(&term.grid, &mut term.selection, mode, cmd)
}

fn handle(backend: &mut Backend, term: &mut Term, cmd: Command) -> Outcome {
    handle_in(backend, term, TermMode::empty(), cmd)
}

fn effects(effects: Vec<Effect>) -> Outcome {
    Outcome { action: Action::Ignore, effects }
}

fn action(action: Action) -> Outcome {
    Outcome { action, effects: vec![] }
}

fn select(ty: OuterSelectionType, row: i32, col: usize, side: OuterSide) -> Selection {
    Selection::new(ty, OuterPos::new(Line(row), Column(col)), side)
}

#[test]
fn new_backend_shows_the_terminal() {
    let mut term = terminal();
    term.grid[OuterPos::new(Line(0), Column(0))].set_c('$');
    let backend = backend(&mut term);
    let content = backend.renderable_content();
    assert_eq!(content.cursor.c(), '$');
    assert_eq!(content.grid[OuterPos::new(Line(0), Column(0))].c(), '$');
    assert_eq!(content.terminal_mode.bits, term.mode().bits());
    assert_eq!(content.hovered_hyperlink, None);
    assert_eq!(content.selectable_range, None);
    assert_eq!(content.terminal_size.columns(), 80);
    assert_eq!(content.terminal_size.screen_lines(), 50);
    assert_eq!(backend.size().columns(), 80);
    assert_eq!(backend.selectable_content(), "");
}

#[test]
fn writing_scrolls_to_the_bottom() {
    let mut term = terminal();
    let mut backend = backend(&mut term);
    assert_eq!(
        handle(&mut backend, &mut term, Command::Write(b"ls\r".to_vec())),
        effects(vec![Effect::Input(b"ls\r".to_vec()), Effect::ScrollDisplay(Scroll::Bottom)])
    );
}

#[test]
fn wheel_scrolls_the_display() {
    let mut term = terminal();
    let mut backend = backend(&mut term);
    assert_eq!(
        handle(&mut backend, &mut term, Command::Scroll(3)),
        effects(vec![Effect::ScrollDisplay(Scroll::Delta(3))])
    );
    assert_eq!(
        handle(&mut backend, &mut term, Command::Scroll(i32::MIN)),
        effects(vec![Effect::ScrollDisplay(Scroll::Delta(i32::MIN))])
    );
    assert_eq!(handle(&mut backend, &mut term, Command::Scroll(0)), effects(vec![]));
}

#[test]
fn wheel_sends_cursor_keys_on_the_alternate_screen() {
    let alternate = TermMode { bits: (Mode::ALT_SCREEN | Mode::ALTERNATE_SCROLL).bits() };
    assert_eq!(
        scroll(alternate, 2),
        effects(vec![Effect::Input(b"\x1bOA\x1bOA".to_vec())])
    );
    assert_eq!(
        scroll(alternate, -3),
        effects(vec![Effect::Input(b"\x1bOB\x1bOB\x1bOB".to_vec())])
    );
    assert_eq!(scroll(alternate, 0), effects(vec![]));
}

#[test]
fn wheel_in_two_steps() {
    let alternate = TermMode { bits: (Mode::ALT_SCREEN | Mode::ALTERNATE_SCROLL).bits() };
    let keys = |delta: i32| match &scroll(alternate, delta).effects[0] {
        Effect::Input(bytes) => bytes.clone(),
        _ => unreachable!(),
    };
    let mut steps = keys(2);
    steps.extend(keys(5));
    assert_eq!(steps, keys(7));
    let mut steps = keys(-2);
    steps.extend(keys(-5));
    assert_eq!(steps, keys(-7));
}

#[test]
fn endless_wheel_is_not_admitted_on_the_alternate_screen() {
    let mut term = terminal();
    let backend = backend(&mut term);
    let alternate = TermMode { bits: (Mode::ALT_SCREEN | Mode::ALTERNATE_SCROLL).bits() };
    let endless = Command::Scroll(i32::MIN);
    assert!(!backend.is_admitted(&term.grid, &None, alternate, &endless));
    assert!(backend.is_admitted(&term.grid, &None, TermMode::empty(), &endless));
}

#[test]
fn resizing_measures_and_asks_for_a_fit() {
    let mut term = terminal();
    let mut backend = backend(&mut term);
    let layout = LayoutSize { width: 800.5f32.to_bits(), height: 600.0f32.to_bits() };
    let cell = CellSize { width: 8, height: 16 };
    assert_eq!(
        handle(&mut backend, &mut term, Command::Resize(Some(layout), Some(cell))),
        effects(vec![Effect::FitGrid])
    );
    assert_eq!(backend.size().layout, layout);
    assert_eq!((backend.size().cell_width, backend.size().cell_height), (8, 16));
    assert_eq!((backend.size().columns(), backend.size().screen_lines()), (80, 50));

    let fit = GridFit { lines: 37, cols: 100, width: 800, height: 600 };
    assert_eq!(
        backend.fit_grid(fit),
        Some(WindowSize { rows: 37, cols: 100, width: 800, height: 600 })
    );
    assert_eq!((backend.size().columns(), backend.size().screen_lines()), (100, 37));

    assert_eq!(backend.fit_grid(GridFit { lines: 0, ..fit }), None);
    assert_eq!((backend.size().columns(), backend.size().screen_lines()), (100, 37));
    assert_eq!(backend.renderable_content().terminal_size.columns(), 80);
}

#[test]
fn side_is_the_half_of_the_cell() {
    let mut term = terminal();
    let mut backend = backend(&mut term);
    backend.resize(None, Some(CellSize { width: 9, height: 16 }));
    assert_eq!(backend.selection_side(0), Side::Left);
    assert_eq!(backend.selection_side(4), Side::Left);
    assert_eq!(backend.selection_side(5), Side::Right);
    assert_eq!(backend.selection_side(8), Side::Right);
    assert_eq!(backend.selection_side(9), Side::Left);
    backend.resize(None, Some(CellSize { width: 1, height: 1 }));
    assert_eq!(backend.selection_side(7), Side::Left);
}

#[test]
fn selection_starts_at_the_cell_under_the_mouse() {
    let mut term = terminal();
    let mut backend = backend(&mut term);
    backend.resize(None, Some(CellSize { width: 10, height: 20 }));
    let kinds = [
        (SelectionType::Simple, OuterSelectionType::Simple),
        (SelectionType::Block, OuterSelectionType::Block),
        (SelectionType::Semantic, OuterSelectionType::Semantic),
        (SelectionType::Lines, OuterSelectionType::Lines),
    ];
    for (ty, outer) in kinds {
        let start = Command::SelectStart(ty, Pixel { x: 37, y: 45 });
        assert_eq!(handle(&mut backend, &mut term, start), effects(vec![]));
        assert!(term.selection == Some(select(outer, 2, 3, OuterSide::Right)));
    }
}

#[test]
fn selection_moves_its_end_only() {
    let mut term = terminal();
    let mut backend = backend(&mut term);
    backend.resize(None, Some(CellSize { width: 10, height: 20 }));
    let start = Command::SelectStart(SelectionType::Simple, Pixel { x: 32, y: 45 });
    handle(&mut backend, &mut term, start);
    let update = Command::SelectUpdate(Pixel { x: 88, y: 5 });
    assert_eq!(handle(&mut backend, &mut term, update), effects(vec![]));
    let mut expected = select(OuterSelectionType::Simple, 2, 3, OuterSide::Left);
    expected.update(OuterPos::new(Line(0), Column(8)), OuterSide::Right);
    assert!(term.selection == Some(expected));
}

#[test]
fn selection_follows_the_scrolled_display() {
    let mut term = terminal();
    let mut backend = backend(&mut term);
    backend.resize(None, Some(CellSize { width: 10, height: 20 }));
    term.grid.scroll_up(&(Line(0)..Line(50)), 7);
    term.grid.scroll_display(OuterScroll::Delta(5));
    let start = Command::SelectStart(SelectionType::Lines, Pixel { x: 0, y: 45 });
    handle(&mut backend, &mut term, start);
    assert!(term.selection == Some(select(OuterSelectionType::Lines, -3, 0, OuterSide::Left)));
}

#[test]
fn nothing_to_move() {
    let mut term = terminal();
    let mut backend = backend(&mut term);
    let update = Command::SelectUpdate(Pixel { x: 88, y: 5 });
    assert_eq!(handle(&mut backend, &mut term, update), effects(vec![]));
    assert!(term.selection.is_none());
}

#[test]
fn selecting_needs_cells_with_an_extent() {
    let mut term = terminal();
    let mut backend = backend(&mut term);
    backend.resize(None, Some(CellSize { width: 0, height: 20 }));
    let start = Command::SelectStart(SelectionType::Lines, Pixel { x: 0, y: 0 });
    assert!(!backend.is_admitted(&term.grid, &None, TermMode::empty(), &start));
    let update = Command::SelectUpdate(Pixel { x: 0, y: 0 });
    assert!(backend.is_admitted(&term.grid, &None, TermMode::empty(), &update));
    let some = Some(select(OuterSelectionType::Lines, 0, 0, OuterSide::Left));
    assert!(!backend.is_admitted(&term.grid, &some, TermMode::empty(), &update));
}

#[test]
fn mouse_is_reported_in_the_shown_mode() {
    let mut term = terminal();
    let mut backend = backend(&mut term);
    let none = Modifiers { bits: 0 };
    let sgr = TermMode { bits: Mode::SGR_MOUSE.bits() };
    let report = || Command::MouseReport(MouseButton::LeftButton, none, at(4, 9), true);
    assert_eq!(
        handle_in(&mut backend, &mut term, sgr, report()),
        effects(vec![Effect::Input(vec![0x1b, b'[', b'M', 32, 42, 37])])
    );
    backend.sync(&mut term.grid, None, sgr);
    assert_eq!(
        handle(&mut backend, &mut term, report()),
        effects(vec![Effect::Input(b"\x1b[<0;10;5M".to_vec())])
    );
}

#[test]
fn mouse_out_of_reach_is_not_reported() {
    let mut term = terminal();
    let mut backend = backend(&mut term);
    let none = Modifiers { bits: 0 };
    let far = Command::MouseReport(MouseButton::LeftButton, none, at(300, 9), true);
    assert_eq!(handle(&mut backend, &mut term, far), effects(vec![]));
    let above = Command::MouseReport(MouseButton::LeftButton, none, at(-1, 9), true);
    assert!(!backend.is_admitted(&term.grid, &None, TermMode::empty(), &above));
}

#[test]
fn events_become_actions() {
    let mut term = terminal();
    let mut backend = backend(&mut term);
    let shutdown = vec![RioEvent::Exit, RioEvent::Quit, RioEvent::CloseTerminal(3)];
    for event in shutdown {
        assert_eq!(
            handle(&mut backend, &mut term, Command::ProcessRioEvent(event)),
            action(Action::Shutdown)
        );
    }
    let titles = vec![
        (RioEvent::Title("vi".to_string()), "vi"),
        (RioEvent::TitleWithSubtitle("vi".to_string(), "a.txt".to_string()), "vi"),
        (RioEvent::ResetTitle, ""),
    ];
    for (event, title) in titles {
        assert_eq!(
            handle(&mut backend, &mut term, Command::ProcessRioEvent(event)),
            action(Action::ChangeTitle(title.to_string()))
        );
    }
}

#[test]
fn terminal_answers_are_written() {
    let mut term = terminal();
    let mut backend = backend(&mut term);
    let answer = RioEvent::PtyWrite(0, "\u{1b}[?6c\u{e9}".to_string());
    assert_eq!(
        handle(&mut backend, &mut term, Command::ProcessRioEvent(answer)),
        effects(vec![Effect::Input(b"\x1b[?6c\xc3\xa9".to_vec())])
    );
}

#[test]
fn other_events_are_ignored() {
    let mut term = terminal();
    let mut backend = backend(&mut term);
    for event in vec![RioEvent::Render, RioEvent::Paste, RioEvent::MouseCursorDirty] {
        assert_eq!(
            handle(&mut backend, &mut term, Command::ProcessRioEvent(event)),
            action(Action::Ignore)
        );
    }
}

#[test]
fn each_event_comes_to_its_outcome() {
    assert_eq!(process_event(TerminalEvent::Exit), action(Action::Shutdown));
    assert_eq!(process_event(TerminalEvent::Quit), action(Action::Shutdown));
    assert_eq!(process_event(TerminalEvent::CloseTerminal(3)), action(Action::Shutdown));
    assert_eq!(
        process_event(TerminalEvent::Title("t".to_string())),
        action(Action::ChangeTitle("t".to_string()))
    );
    assert_eq!(
        process_event(TerminalEvent::TitleWithSubtitle("t".to_string(), "s".to_string())),
        action(Action::ChangeTitle("t".to_string()))
    );
    assert_eq!(
        process_event(TerminalEvent::ResetTitle),
        action(Action::ChangeTitle(String::new()))
    );
    assert_eq!(
        process_event(TerminalEvent::PtyWrite(0, "ok".to_string())),
        effects(vec![Effect::Input(b"ok".to_vec())])
    );
    assert_eq!(process_event(TerminalEvent::Other), action(Action::Ignore));
}

#[test]
fn syncing_takes_a_snapshot_and_keeps_the_link() {
    let mut term = terminal();
    let mut backend = backend(&mut term);
    let link = Match { start: at(0, 0), end: at(0, 9) };
    backend.hover(Some(link));
    backend.fit_grid(GridFit { lines: 50, cols: 100, width: 800, height: 600 });
    term.grid[OuterPos::new(Line(0), Column(0))].set_c('x');
    term.grid[OuterPos::new(Line(0), Column(1))].set_c('y');
    let range = SelectionRange { start: at(0, 0), end: at(0, 1), is_block: false };
    let mode = TermMode { bits: Mode::UTF8_MOUSE.bits() };
    assert_eq!(backend.selectable_content(), "");
    backend.sync(&mut term.grid, Some(range), mode);
    assert_eq!(backend.selectable_content(), "xy");
    let content = backend.renderable_content();
    assert_eq!(content.cursor.c(), 'x');
    assert_eq!(content.hovered_hyperlink, Some(link));
    assert_eq!(content.selectable_range, Some(range));
    assert_eq!(content.terminal_mode, mode);
    assert_eq!(content.terminal_size.columns(), 100);
}

#[test]
fn snapshot_does_not_follow_the_terminal() {
    let mut term = terminal();
    let backend = backend(&mut term);
    term.grid[OuterPos::new(Line(0), Column(0))].set_c('x');
    let cell = backend.renderable_content().grid[OuterPos::new(Line(0), Column(0))];
    assert!(cell.c() != 'x');
}

#[test]
fn snapshot_keeps_styles_and_rare_data() {
    let mut term = terminal();
    let mut backend = backend(&mut term);
    let mut style = Style::default();
    style.fg = AnsiColor::Indexed(9);
    style.flags = StyleFlags::BOLD;
    let id = term.grid.style_set.intern(style);
    let place = OuterPos::new(Line(0), Column(0));
    term.grid[place].set_style_id(id);
    let link = Hyperlink::new(Some("id"), "https://a.b");
    let extras = Extras { zerowidth: vec!['\u{301}'], hyperlink: Some(link) };
    let slot = term.grid.extras_table.alloc(extras.clone());
    let painted = square_colors(term.grid[place], term.grid.style_set.styles());

    backend.sync(&mut term.grid, None, TermMode::empty());
    let shown = &backend.renderable_content().grid;
    assert!(shown.style_set.styles() == term.grid.style_set.styles());
    assert_eq!(square_colors(shown[place], shown.style_set.styles()), painted);
    assert_eq!(
        painted,
        (ShownColor::Indexed(9), ShownColor::Named(BACKGROUND), StyleFlags::BOLD.bits())
    );
    let cursor = backend.renderable_content().cursor;
    assert_eq!(square_colors(cursor, shown.style_set.styles()), painted);
    assert_eq!(shown.extras_table.get(slot), Some(&extras));
}

#[test]
fn copies_of_commands_come_to_the_same() {
    let mut term = terminal();
    let mut backend = backend(&mut term);
    let none = Modifiers { bits: 0 };
    let commands = vec![
        Command::Write(b"ls".to_vec()),
        Command::Scroll(4),
        Command::Resize(None, Some(CellSize { width: 8, height: 16 })),
        Command::SelectStart(SelectionType::Block, Pixel { x: 30, y: 40 }),
        Command::SelectUpdate(Pixel { x: 80, y: 90 }),
        Command::ProcessLink(LinkAction::Hover, at(1, 2)),
        Command::MouseReport(MouseButton::RightButton, none, at(1, 2), false),
        Command::ProcessRioEvent(RioEvent::Title("vi".to_string())),
        Command::ProcessRioEvent(RioEvent::PtyWrite(2, "ok".to_string())),
    ];
    for command in commands {
        let copied = handle(&mut backend, &mut term, command.clone());
        let selection = term.selection.clone();
        assert_eq!(copied, handle(&mut backend, &mut term, command));
        assert!(selection == term.selection);
    }
}

#[test]
fn snapshot_keeps_underlines_cursors_and_marks() {
    let mut term = terminal();
    let mut backend = backend(&mut term);
    let mut style = Style::default();
    style.underline_color = Some(AnsiColor::Indexed(5));
    let id = term.grid.style_set.intern(style);
    term.grid.cursor.pos = OuterPos::new(Line(3), Column(4));
    term.grid.cursor.template.set_c('t');
    term.grid.cursor.should_wrap = true;
    term.grid.saved_cursor.pos = OuterPos::new(Line(1), Column(2));
    term.grid.saved_cursor.template.set_style_id(id);
    term.grid[Line(2)].semantic_prompt = SemanticPrompt::Prompt;
    for row in 0..50 {
        term.grid[Line(row)].dirty = row == 7;
    }

    backend.sync(&mut term.grid, None, TermMode::empty());
    let shown = &backend.renderable_content().grid;
    assert!(shown.style_set.styles()[id as usize] == style);
    assert!(shown.cursor == term.grid.cursor);
    assert!(shown.cursor.should_wrap && shown.cursor.template.c() == 't');
    assert!(shown.saved_cursor == term.grid.saved_cursor);
    assert_eq!(shown.saved_cursor.template.style_id(), id);
    assert!(shown[Line(2)].semantic_prompt == SemanticPrompt::Prompt);
    assert_eq!(shown.lines_evicted(), term.grid.lines_evicted());
    for row in 0..50 {
        assert_eq!(shown[Line(row)].dirty, row == 3 || row == 7);
        assert_eq!(term.grid[Line(row)].dirty, row == 3 || row == 7);
    }
}
