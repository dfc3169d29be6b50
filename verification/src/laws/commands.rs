//! What comes of commands and events.
use crate::backend::{
    admits, event_outcome, fitted, handled, measured, rehovered, report_effects, scroll_effects,
    shows, wheel_keys, Backend, Command, Effect, EffectView, LinkAction, Outcome, OutcomeView,
    Pixel, Scroll, SCROLLBACK_HISTORY,
};
use crate::content::link_chars;
use crate::event::{event_view, Action, ActionView, TerminalEvent};
use crate::grid::{
    cursor_line_touched, grid_cells, grid_columns, grid_cursor, grid_dirty_lines,
    grid_display_offset, grid_extras, grid_history_limit, grid_line_marks, grid_lines,
    grid_lines_evicted, grid_pen, grid_reflow, grid_saved_cursor, grid_saved_pen, grid_styles,
    grid_total_lines, grid_underlines, grid_view, square_bits,
};
use crate::laws::mouse::{
    keys_are_held_where_their_bits_are_set, protocol_follows_two_modes, what_can_be_reported,
};
use crate::laws::places::{
    is_cell_at, point_is_the_cell_at_the_pixel, points_need_cells_with_an_extent,
    right_half_is_beyond_the_middle,
};
use crate::links::SEARCH_MARGIN;
use crate::mode::{mouse_mode, TermMode};
use crate::mouse::{mouse_report, HeldKeys, Modifiers, MouseButton};
use crate::point::{Match, Pos};
use crate::selection::{
    selection_end, selection_start, selection_type, Anchor, SelectionRange, SelectionType, Side,
};
use crate::size::{CellSize, GridFit, LayoutSize, TerminalSize, WindowSize};
use rio_vt::crosswords::grid::Grid;
use rio_vt::crosswords::square::Square;
use rio_vt::event::RioEvent;
use rio_vt::selection::Selection;
use vstd::prelude::*;

verus! {

/// Closing a terminal, whichever route it is on, comes to the same as the end
/// of the program and as quitting: the application shuts down, and nothing
/// else is done.
pub proof fn every_ending_shuts_down(route: usize)
    ensures
        event_outcome(TerminalEvent::CloseTerminal(route)@) == event_outcome(TerminalEvent::Exit@),
        event_outcome(TerminalEvent::Quit@) == event_outcome(TerminalEvent::Exit@),
        event_outcome(TerminalEvent::Exit@).action == ActionView::Shutdown,
        event_outcome(TerminalEvent::Exit@).effects.len() == 0,
{
}

/// A title is shown as it is, whatever the subtitle; resetting it shows an
/// empty one. Nothing else is done.
pub proof fn titles_are_shown_as_they_are(title: String, subtitle: String)
    ensures
        event_outcome(TerminalEvent::Title(title)@).action == ActionView::ChangeTitle(title@),
        event_outcome(TerminalEvent::Title(title)@).effects.len() == 0,
        event_outcome(TerminalEvent::TitleWithSubtitle(title, subtitle)@) == event_outcome(
            TerminalEvent::Title(title)@,
        ),
        event_outcome(TerminalEvent::ResetTitle@).action matches ActionView::ChangeTitle(shown)
            && shown.len() == 0,
        event_outcome(TerminalEvent::ResetTitle@).effects.len() == 0,
{
}

/// Text for the program is sent to it as UTF-8, whichever route it is on, and
/// the application is asked for nothing.
pub proof fn answers_are_sent_as_they_are(route: usize, text: String)
    ensures
        ({
            let outcome = event_outcome(TerminalEvent::PtyWrite(route, text)@);
            &&& outcome.action == ActionView::Ignore
            &&& outcome.effects.len() == 1
            &&& outcome.effects[0] == EffectView::Input(vstd::utf8::encode_utf8(text@))
        }),
{
}

/// Nothing comes of any other event.
pub proof fn other_events_come_to_nothing()
    ensures
        event_outcome(TerminalEvent::Other@).action == ActionView::Ignore,
        event_outcome(TerminalEvent::Other@).effects.len() == 0,
{
}

/// The view of an event tells which event it is, and what it carries.
pub proof fn event_views_keep_everything(event: TerminalEvent, other: TerminalEvent)
    requires
        event@ == other@,
    ensures
        match event {
            TerminalEvent::Exit => other is Exit,
            TerminalEvent::Quit => other is Quit,
            TerminalEvent::CloseTerminal(route) => other == TerminalEvent::CloseTerminal(route),
            TerminalEvent::Title(title) => other matches TerminalEvent::Title(shown) && shown@
                == title@,
            TerminalEvent::TitleWithSubtitle(title, subtitle) => {
                other matches TerminalEvent::TitleWithSubtitle(shown, below) && shown@ == title@
                    && below@ == subtitle@
            },
            TerminalEvent::ResetTitle => other is ResetTitle,
            TerminalEvent::PtyWrite(route, text) => {
                other matches TerminalEvent::PtyWrite(path, sent) && path == route && sent@
                    == text@
            },
            TerminalEvent::Other => other is Other,
        },
{
}

/// The view of an outcome has the action and every effect, in order, with what
/// they carry.
pub proof fn outcome_views_keep_everything(outcome: Outcome)
    ensures
        outcome@.effects.len() == outcome.effects@.len(),
        forall|i: int|
            0 <= i < outcome.effects@.len() ==> (#[trigger] outcome@.effects[i]) == (
            match outcome.effects@[i] {
                Effect::Input(bytes) => EffectView::Input(bytes@),
                Effect::ScrollDisplay(scroll) => EffectView::ScrollDisplay(scroll),
                Effect::FitGrid => EffectView::FitGrid,
                Effect::FindLink(point) => EffectView::FindLink(point),
                Effect::OpenLink(url) => EffectView::OpenLink(url@),
            }),
        outcome@.action == (match outcome.action {
            Action::Shutdown => ActionView::Shutdown,
            Action::ChangeTitle(title) => ActionView::ChangeTitle(title@),
            Action::Ignore => ActionView::Ignore,
        }),
{
}

/// Whether the wheel sends keys: both modes for it are on.
pub open spec fn sends_keys(mode: TermMode) -> bool {
    mode.bits / 4096 % 2 == 1 && mode.bits / 32768 % 2 == 1
}

proof fn both_modes_send_keys(mode: TermMode)
    ensures
        mode.has(0x9000) <==> sends_keys(mode),
{
    let bits = mode.bits;
    assert((bits & 0x9000 == 0x9000) == (bits / 4096 % 2 == 1 && bits / 32768 % 2 == 1))
        by (bit_vector);
}

/// Without both modes for it the wheel scrolls the display by exactly as many
/// lines as it was turned, in the same direction, and does nothing else.
pub proof fn wheel_scrolls_by_what_it_is_turned(mode: TermMode, delta: i32)
    requires
        !sends_keys(mode),
        delta != 0,
    ensures
        scroll_effects(mode, delta).len() == 1,
        scroll_effects(mode, delta)[0] matches EffectView::ScrollDisplay(Scroll::Delta(lines))
            && lines == delta,
{
    both_modes_send_keys(mode);
}

/// Without both modes for it, turning the wheel the other way scrolls the other
/// way by as many lines, and no two turns scroll alike.
pub proof fn opposite_turns_scroll_opposite_ways(mode: TermMode, delta: i32, other: i32)
    requires
        !sends_keys(mode),
        delta != 0,
        other != 0,
    ensures
        scroll_effects(mode, delta)[0] matches EffectView::ScrollDisplay(Scroll::Delta(lines)) && (
        scroll_effects(mode, other)[0] matches EffectView::ScrollDisplay(Scroll::Delta(more)) && (
        other == -delta <==> more == -lines) && (other == delta <==> more == lines) && (lines < 0
            <==> delta < 0)),
{
    both_modes_send_keys(mode);
}

/// A wheel that was not turned does nothing, whatever the modes.
pub proof fn still_wheel_does_nothing(mode: TermMode)
    ensures
        scroll_effects(mode, 0).len() == 0,
{
}

/// With both modes for it the wheel sends, and does nothing else, one key for
/// every line: `ESC O A` for a line up, `ESC O B` for a line down.
pub proof fn wheel_sends_one_key_for_every_line(mode: TermMode, delta: i32, line: int)
    requires
        sends_keys(mode),
        delta != 0,
        0 <= line < (if delta > 0 { delta as int } else { -delta }),
    ensures
        scroll_effects(mode, delta).len() == 1,
        scroll_effects(mode, delta)[0] matches EffectView::Input(bytes) && bytes.len() == 3 * (
        if delta > 0 { delta as int } else { -delta }) && bytes[3 * line] == 27 && bytes[3 * line
            + 1] == 79 && bytes[3 * line + 2] == if delta > 0 { 65u8 } else { 66u8 },
{
    both_modes_send_keys(mode);
    let bytes = wheel_keys(delta as int);
    assert(3 * line % 3 == 0 && (3 * line + 1) % 3 == 1 && (3 * line + 2) % 3 == 2);
    assert(bytes[3 * line] == 27);
    assert(bytes[3 * line + 1] == 79);
    assert(bytes[3 * line + 2] == if delta > 0 { 65u8 } else { 66u8 });
}

/// A report that is there is sent, byte for byte, and nothing else; where none
/// is there, nothing is sent.
pub proof fn reports_are_sent_as_they_are(report: Option<Seq<u8>>)
    ensures
        match report {
            Some(bytes) => report_effects(report).len() == 1 && report_effects(report)[0]
                == EffectView::Input(bytes),
            None => report_effects(report).len() == 0,
        },
{
}

/// Writing sends the bytes, then shows the screen, and changes nothing.
pub proof fn write_sends_and_shows_the_screen(
    before: Backend,
    after: Backend,
    grid: Grid<Square>,
    selection_before: Option<Selection>,
    selection_after: Option<Selection>,
    mode: TermMode,
    input: Vec<u8>,
    outcome: OutcomeView,
)
    requires
        handled(
            before,
            after,
            grid,
            selection_before,
            selection_after,
            mode,
            Command::Write(input),
            outcome,
        ),
    ensures
        after == before,
        selection_after == selection_before,
        outcome.action == ActionView::Ignore,
        outcome.effects.len() == 2,
        outcome.effects[0] == EffectView::Input(input@),
        outcome.effects[1] == EffectView::ScrollDisplay(Scroll::Bottom),
{
}

/// Scrolling is what turning the wheel comes to in the modes of the terminal,
/// and changes nothing in the backend.
pub proof fn scrolling_turns_the_wheel(
    before: Backend,
    after: Backend,
    grid: Grid<Square>,
    selection_before: Option<Selection>,
    selection_after: Option<Selection>,
    mode: TermMode,
    delta: i32,
    outcome: OutcomeView,
)
    requires
        handled(
            before,
            after,
            grid,
            selection_before,
            selection_after,
            mode,
            Command::Scroll(delta),
            outcome,
        ),
    ensures
        after == before,
        selection_after == selection_before,
        outcome.action == ActionView::Ignore,
        outcome.effects == scroll_effects(mode, delta),
        !sends_keys(mode) && delta != 0 ==> outcome.effects == seq![
            EffectView::ScrollDisplay(Scroll::Delta(delta)),
        ],
{
    both_modes_send_keys(mode);
}

/// Resizing takes over the layout and the cell size that are given, keeps those
/// that are not, keeps the grid, and asks for a fit.
pub proof fn resizing_takes_over_what_is_given(
    before: Backend,
    after: Backend,
    grid: Grid<Square>,
    selection_before: Option<Selection>,
    selection_after: Option<Selection>,
    mode: TermMode,
    layout: Option<LayoutSize>,
    cell: Option<CellSize>,
    outcome: OutcomeView,
)
    requires
        handled(
            before,
            after,
            grid,
            selection_before,
            selection_after,
            mode,
            Command::Resize(layout, cell),
            outcome,
        ),
    ensures
        after.spec_size().layout == (if layout is Some {
            layout->0
        } else {
            before.spec_size().layout
        }),
        after.spec_size().cell_width == (if cell is Some {
            cell->0.width
        } else {
            before.spec_size().cell_width
        }),
        after.spec_size().cell_height == (if cell is Some {
            cell->0.height
        } else {
            before.spec_size().cell_height
        }),
        after.spec_size().num_cols() == before.spec_size().num_cols(),
        after.spec_size().num_lines() == before.spec_size().num_lines(),
        after.spec_content() == before.spec_content(),
        after.spec_url_regex() == before.spec_url_regex(),
        selection_after == selection_before,
        outcome.action == ActionView::Ignore,
        outcome.effects.len() == 1,
        outcome.effects[0] == EffectView::FitGrid,
{
}

/// Whether there are cells with an extent, and rows of the displayed area have
/// numbers.
pub open spec fn is_measured(size: TerminalSize, display_offset: usize) -> bool {
    &&& size.has_cells()
    &&& size.cell_width > 0
    &&& size.cell_height > 0
    &&& display_offset <= i32::MAX
}

/// Whether an end of a selection is at a place of the displayed area: at the
/// cell there, and in the half of it that the place is in.
pub open spec fn is_anchored_at(
    anchor: Anchor,
    size: TerminalSize,
    display_offset: usize,
    place: Pixel,
) -> bool {
    is_measured(size, display_offset) ==> {
        &&& is_cell_at(
            anchor.point.col as int,
            place.x as int,
            size.cell_width as int,
            size.num_cols(),
        )
        &&& is_cell_at(
            anchor.point.row + display_offset,
            place.y as int,
            size.cell_height as int,
            size.num_lines(),
        )
        &&& anchor.side == if 2 * (place.x as int % size.cell_width as int) > size.cell_width {
            Side::Right
        } else {
            Side::Left
        }
    }
}

proof fn anchor_is_at_its_place(size: TerminalSize, display_offset: usize, place: Pixel)
    ensures
        is_anchored_at(
            crate::backend::anchor_at(size, display_offset, place),
            size,
            display_offset,
            place,
        ),
{
    if is_measured(size, display_offset) {
        point_is_the_cell_at_the_pixel(place.x, place.y, size, display_offset);
        let (x, width) = (place.x as int, size.cell_width as int);
        vstd::arithmetic::div_mod::lemma_fundamental_div_mod(x, width);
        vstd::arithmetic::div_mod::lemma_mod_bound(x, width);
        assert(x == x / width * width + x % width) by (nonlinear_arith)
            requires
                x == width * (x / width) + x % width,
        ;
        right_half_is_beyond_the_middle(place.x, x / width, x % width, size.cell_width);
    }
}

/// Beginning a selection makes one of the given kind with both ends at the
/// place, whatever was selected before, and does nothing else.
pub proof fn selecting_begins_at_the_place(
    before: Backend,
    after: Backend,
    grid: Grid<Square>,
    selection_before: Option<Selection>,
    selection_after: Option<Selection>,
    mode: TermMode,
    ty: SelectionType,
    place: Pixel,
    outcome: OutcomeView,
)
    requires
        handled(
            before,
            after,
            grid,
            selection_before,
            selection_after,
            mode,
            Command::SelectStart(ty, place),
            outcome,
        ),
    ensures
        after == before,
        selection_after is Some,
        selection_type(selection_after->0) == ty,
        is_anchored_at(
            selection_start(selection_after->0),
            before.spec_size(),
            grid_display_offset(grid),
            place,
        ),
        selection_end(selection_after->0) == selection_start(selection_after->0),
        outcome.action == ActionView::Ignore,
        outcome.effects.len() == 0,
{
    anchor_is_at_its_place(before.spec_size(), grid_display_offset(grid), place);
}

/// Moving a selection takes its second end to the place, and keeps its kind and
/// its first end; where nothing is selected, nothing happens.
pub proof fn selecting_moves_the_second_end(
    before: Backend,
    after: Backend,
    grid: Grid<Square>,
    selection_before: Option<Selection>,
    selection_after: Option<Selection>,
    mode: TermMode,
    place: Pixel,
    outcome: OutcomeView,
)
    requires
        handled(
            before,
            after,
            grid,
            selection_before,
            selection_after,
            mode,
            Command::SelectUpdate(place),
            outcome,
        ),
    ensures
        after == before,
        selection_after is Some <==> selection_before is Some,
        selection_before is Some ==> {
            &&& selection_type(selection_after->0) == selection_type(selection_before->0)
            &&& selection_start(selection_after->0) == selection_start(selection_before->0)
            &&& is_anchored_at(
                selection_end(selection_after->0),
                before.spec_size(),
                grid_display_offset(grid),
                place,
            )
        },
        outcome.action == ActionView::Ignore,
        outcome.effects.len() == 0,
{
    anchor_is_at_its_place(before.spec_size(), grid_display_offset(grid), place);
}

/// Hovering asks for the link at the point; clearing forgets the link and
/// nothing else; opening opens the text of the link that is noted, if one is.
/// The point matters for hovering only.
pub proof fn links_are_sought_forgotten_and_opened(
    before: Backend,
    after: Backend,
    grid: Grid<Square>,
    selection_before: Option<Selection>,
    selection_after: Option<Selection>,
    mode: TermMode,
    action: LinkAction,
    point: Pos,
    outcome: OutcomeView,
)
    requires
        handled(
            before,
            after,
            grid,
            selection_before,
            selection_after,
            mode,
            Command::ProcessLink(action, point),
            outcome,
        ),
    ensures
        selection_after == selection_before,
        outcome.action == ActionView::Ignore,
        after.spec_size() == before.spec_size(),
        after.spec_url_regex() == before.spec_url_regex(),
        after.spec_content().grid == before.spec_content().grid,
        after.spec_content().selectable_range == before.spec_content().selectable_range,
        after.spec_content().cursor == before.spec_content().cursor,
        after.spec_content().terminal_mode == before.spec_content().terminal_mode,
        after.spec_content().terminal_size == before.spec_content().terminal_size,
        after.spec_content().hovered_hyperlink == (if action is Clear {
            None
        } else {
            before.spec_content().hovered_hyperlink
        }),
        action is Hover ==> outcome.effects.len() == 1 && outcome.effects[0]
            == EffectView::FindLink(point),
        action is Clear ==> outcome.effects.len() == 0,
        action is Open ==> match before.spec_content().hovered_hyperlink {
            Some(link) => outcome.effects.len() == 1 && outcome.effects[0]
                == EffectView::OpenLink(
                link_chars(grid_view(before.spec_content().grid), link),
            ),
            None => outcome.effects.len() == 0,
        },
{
}

/// The keys that are held, by their bits; `command` is the bit of the command
/// key.
pub open spec fn keys_by_bits(modifiers: Modifiers, command: u32) -> HeldKeys {
    HeldKeys {
        shift: modifiers.bits / 4 % 2 == 1,
        alt: modifiers.bits / 256 % 2 == 1,
        command: modifiers.bits / command % 2 == 1,
    }
}

/// Reporting sends the report of the event in the protocol of the shown
/// terminal, if it has one, and does nothing else. The command key is the
/// control key or the logo key.
pub proof fn mouse_events_are_reported(
    before: Backend,
    after: Backend,
    grid: Grid<Square>,
    selection_before: Option<Selection>,
    selection_after: Option<Selection>,
    mode: TermMode,
    button: MouseButton,
    modifiers: Modifiers,
    point: Pos,
    pressed: bool,
    outcome: OutcomeView,
)
    requires
        handled(
            before,
            after,
            grid,
            selection_before,
            selection_after,
            mode,
            Command::MouseReport(button, modifiers, point, pressed),
            outcome,
        ),
    ensures
        after == before,
        selection_after == selection_before,
        outcome.action == ActionView::Ignore,
        ({
            let protocol = mouse_mode(before.spec_content().terminal_mode);
            let with_ctrl = mouse_report(
                protocol,
                button,
                keys_by_bits(modifiers, 32),
                point,
                pressed,
            );
            let with_logo = mouse_report(
                protocol,
                button,
                keys_by_bits(modifiers, 2048),
                point,
                pressed,
            );
            ||| outcome.effects.len() == 0 && with_ctrl is None && with_logo is None
            ||| with_ctrl is Some && outcome.effects == seq![EffectView::Input(with_ctrl->0)]
            ||| with_logo is Some && outcome.effects == seq![EffectView::Input(with_logo->0)]
        }),
{
    keys_are_held_where_their_bits_are_set(modifiers, 32);
    let protocol = mouse_mode(before.spec_content().terminal_mode);
    crate::laws::mouse::reports_end_at_their_limits(
        protocol,
        button,
        keys_by_bits(modifiers, 32),
        point,
        pressed,
    );
    crate::laws::mouse::reports_end_at_their_limits(
        protocol,
        button,
        keys_by_bits(modifiers, 2048),
        point,
        pressed,
    );
}

/// An event changes nothing in the backend; what comes of it is what comes of
/// the event it is.
pub proof fn events_come_to_their_outcome(
    before: Backend,
    after: Backend,
    grid: Grid<Square>,
    selection_before: Option<Selection>,
    selection_after: Option<Selection>,
    mode: TermMode,
    event: RioEvent,
    known: TerminalEvent,
    outcome: OutcomeView,
)
    requires
        handled(
            before,
            after,
            grid,
            selection_before,
            selection_after,
            mode,
            Command::ProcessRioEvent(event),
            outcome,
        ),
    ensures
        after == before,
        selection_after == selection_before,
        event_view(event) == known@ ==> outcome == event_outcome(known@),
{
}

/// A fit with lines and columns becomes the grid and is told with the layout in
/// whole pixels; any other changes nothing and is not told. Nothing else of
/// the backend changes.
pub proof fn fits_become_the_grid(
    before: Backend,
    after: Backend,
    fit: GridFit,
    told: Option<WindowSize>,
)
    requires
        fitted(before, after, fit, told),
    ensures
        told is Some <==> fit.lines > 0 && fit.cols > 0,
        told is None ==> after == before,
        told is Some ==> {
            &&& told->0.rows == fit.lines
            &&& told->0.cols == fit.cols
            &&& told->0.width == fit.width
            &&& told->0.height == fit.height
            &&& after.spec_size().num_lines() == fit.lines
            &&& after.spec_size().num_cols() == fit.cols
        },
        after.spec_size().layout == before.spec_size().layout,
        after.spec_size().cell_width == before.spec_size().cell_width,
        after.spec_size().cell_height == before.spec_size().cell_height,
        after.spec_content() == before.spec_content(),
        after.spec_url_regex() == before.spec_url_regex(),
{
}

/// Measuring takes over what is given and keeps the rest.
pub proof fn measures_are_taken_over(
    before: Backend,
    after: Backend,
    layout: Option<LayoutSize>,
    cell: Option<CellSize>,
)
    requires
        measured(before, after, layout, cell),
    ensures
        layout is Some ==> after.spec_size().layout == layout->0,
        layout is None ==> after.spec_size().layout == before.spec_size().layout,
        cell is Some ==> after.spec_size().cell_width == cell->0.width
            && after.spec_size().cell_height == cell->0.height,
        cell is None ==> after.spec_size().cell_width == before.spec_size().cell_width
            && after.spec_size().cell_height == before.spec_size().cell_height,
        after.spec_size().num_cols() == before.spec_size().num_cols(),
        after.spec_size().num_lines() == before.spec_size().num_lines(),
        after.spec_content() == before.spec_content(),
        after.spec_url_regex() == before.spec_url_regex(),
{
}

/// The link that is noted, or that there is none, is kept as it is, and nothing
/// else changes.
pub proof fn links_are_noted_as_they_are(before: Backend, after: Backend, link: Option<Match>)
    requires
        rehovered(before, after, link),
    ensures
        after.spec_content().hovered_hyperlink == link,
        after.spec_content().grid == before.spec_content().grid,
        after.spec_content().selectable_range == before.spec_content().selectable_range,
        after.spec_content().cursor == before.spec_content().cursor,
        after.spec_content().terminal_mode == before.spec_content().terminal_mode,
        after.spec_content().terminal_size == before.spec_content().terminal_size,
        after.spec_size() == before.spec_size(),
        after.spec_url_regex() == before.spec_url_regex(),
{
}

/// A snapshot has everything of the grid, the cell under its cursor, the
/// selected range, the modes, and the size of the backend.
pub proof fn snapshot_has_everything(
    backend: Backend,
    grid: Grid<Square>,
    range: Option<SelectionRange>,
    mode: TermMode,
)
    requires
        shows(backend, grid, range, mode),
    ensures
        ({
            let shown = backend.spec_content().grid;
            &&& grid_cells(shown) == grid_cells(grid)
            &&& grid_styles(shown) == grid_styles(grid)
            &&& grid_underlines(shown) == grid_underlines(grid)
            &&& grid_extras(shown) == grid_extras(grid)
            &&& grid_line_marks(shown) == grid_line_marks(grid)
            &&& grid_dirty_lines(shown) == grid_dirty_lines(grid)
            &&& grid_columns(shown) == grid_columns(grid)
            &&& grid_lines(shown) == grid_lines(grid)
            &&& grid_total_lines(shown) == grid_total_lines(grid)
            &&& grid_display_offset(shown) == grid_display_offset(grid)
            &&& grid_cursor(shown) == grid_cursor(grid)
            &&& grid_pen(shown) == grid_pen(grid)
            &&& grid_saved_cursor(shown) == grid_saved_cursor(grid)
            &&& grid_saved_pen(shown) == grid_saved_pen(grid)
            &&& grid_history_limit(shown) == grid_history_limit(grid)
            &&& grid_lines_evicted(shown) == grid_lines_evicted(grid)
            &&& grid_reflow(shown) == grid_reflow(grid)
        }),
        square_bits(backend.spec_content().cursor) == grid_cells(grid)[grid_cursor(
            grid,
        ).row as int][grid_cursor(grid).col as int],
        backend.spec_content().selectable_range == range,
        backend.spec_content().terminal_mode == mode,
        backend.spec_content().terminal_size == backend.spec_size(),
{
}

/// Looking at the cell under the cursor marks its line and changes no cell, no
/// style and no place.
pub proof fn looking_at_the_cursor_marks_its_line(before: Grid<Square>, after: Grid<Square>)
    requires
        cursor_line_touched(before, after),
    ensures
        grid_cells(after) == grid_cells(before),
        grid_styles(after) == grid_styles(before),
        grid_cursor(after) == grid_cursor(before),
        grid_display_offset(after) == grid_display_offset(before),
        grid_columns(after) == grid_columns(before),
        grid_lines(after) == grid_lines(before),
        grid_total_lines(after) == grid_total_lines(before),
        forall|row: int|
            grid_dirty_lines(after).contains(row) <==> grid_dirty_lines(before).contains(row)
                || row == grid_cursor(before).row,
{
}

/// Which commands can be carried out: all but turning the wheel by the lowest
/// number where it sends keys, selecting where a cell has no extent, opening a
/// link that begins off the grid, and reporting a place that has no report.
pub proof fn what_can_be_carried_out(
    backend: Backend,
    grid: Grid<Square>,
    selection: Option<Selection>,
    mode: TermMode,
    cmd: Command,
)
    requires
        backend.spec_size().has_cells(),
        grid_display_offset(grid) <= i32::MAX,
    ensures
        admits(backend, grid, selection, mode, cmd) <==> match cmd {
            Command::Write(_) => true,
            Command::Resize(_, _) => true,
            Command::ProcessRioEvent(_) => true,
            Command::Scroll(delta) => !(sends_keys(mode) && delta == i32::MIN),
            Command::SelectStart(_, _) => backend.spec_size().cell_width > 0
                && backend.spec_size().cell_height > 0,
            Command::SelectUpdate(_) => selection is None || (backend.spec_size().cell_width > 0
                && backend.spec_size().cell_height > 0),
            Command::ProcessLink(action, _) => !(action is Open)
                || backend.spec_content().hovered_hyperlink is None || {
                let shown = backend.spec_content().grid;
                let start = backend.spec_content().hovered_hyperlink->0.start;
                &&& grid_columns(shown) > 0
                &&& grid_lines(shown) <= grid_total_lines(shown) <= i32::MAX
                &&& grid_display_offset(shown) <= i32::MAX
                &&& grid_lines(shown) - grid_total_lines(shown) <= start.row < grid_lines(shown)
                &&& start.col < grid_cells(shown)[start.row as int].len()
            },
            Command::MouseReport(_, _, point, _) => {
                let modes = backend.spec_content().terminal_mode.bits;
                if modes / 32 % 2 == 1 {
                    point.col < usize::MAX && point.row < i32::MAX
                } else {
                    point.row >= 0 || point.row % 256 <= 222 || point.col >= (if modes / 16384 % 2
                        == 1 {
                        2015int
                    } else {
                        223int
                    })
                }
            },
        },
{
    both_modes_send_keys(mode);
    match cmd {
        Command::SelectStart(_, place) => {
            points_need_cells_with_an_extent(
                place.y,
                backend.spec_size(),
                grid_display_offset(grid),
            );
        },
        Command::SelectUpdate(place) => {
            points_need_cells_with_an_extent(
                place.y,
                backend.spec_size(),
                grid_display_offset(grid),
            );
        },
        Command::MouseReport(_, _, point, _) => {
            protocol_follows_two_modes(backend.spec_content().terminal_mode);
            what_can_be_reported(point);
        },
        _ => {},
    }
}

/// The view of a command tells which command it is, and what it carries.
pub proof fn command_views_keep_everything(cmd: Command, other: Command)
    requires
        cmd@ == other@,
    ensures
        match cmd {
            Command::Write(input) => other matches Command::Write(bytes) && bytes@ == input@,
            Command::ProcessRioEvent(event) => {
                other matches Command::ProcessRioEvent(copy) && event_view(copy) == event_view(
                    event,
                )
            },
            _ => other == cmd,
        },
{
}

/// A terminal keeps ten thousand lines of history, and a search reaches a
/// hundred lines beyond the displayed area.
pub proof fn fixed_numbers()
    ensures
        SCROLLBACK_HISTORY == 10_000,
        SEARCH_MARGIN == 100,
{
}

} // verus!
