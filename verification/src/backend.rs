//! The backend: what a command does to it, and what has to be done elsewhere
//! because of it.
use crate::colors::paint;
use crate::content::{link_chars, link_readable, selected_chars, RenderableContent};
use crate::event::{
    copy_event, event_view, terminal_event, Action, ActionView, EventView, TerminalEvent,
};
use crate::grid::{
    copy_grid, cursor_cell, cursor_line_touched, cursor_on_grid, display_offset, displayed_cells,
    grid_dirty_lines, grid_display_offset, grid_view, has_cell, is_walkable, square_bits, walkable, GridView,
};
use crate::links::{compile_pattern, pattern_compiles, search_pattern, URL_REGEX};
use crate::mode::{mouse_mode, wheel_sends_keys, MouseMode, TermMode, ALTERNATE_SCREEN_SCROLL};
use crate::mouse::{
    held_keys, is_reportable, mouse_report, process_mouse_report, reportable, Modifiers, MouseButton,
    CTRL, LOGO,
};
use crate::point::{Match, Pos};
use crate::selection::{
    move_selection_end, new_selection, selection_end, selection_start, selection_type, Anchor,
    SelectionRange, SelectionType, Side,
};
use crate::size::{
    does_point_exist, point_at, point_exists, CellSize, GridFit, LayoutSize, TerminalSize, WindowSize,
    DEFAULT_LAYOUT_HEIGHT, DEFAULT_LAYOUT_WIDTH,
};
use rio_vt::crosswords::grid::Grid;
use rio_vt::crosswords::search::RegexSearch;
use rio_vt::crosswords::square::Square;
use rio_vt::event::RioEvent;
use rio_vt::selection::Selection;
use vstd::prelude::*;

verus! {

/// `String::into_bytes` hands out the bytes of the text, which are UTF-8.
pub assume_specification[ String::into_bytes ](s: String) -> (r: Vec<u8>)
    ensures
        r@ == vstd::utf8::encode_utf8(s@),
;

/// How many lines of history a terminal keeps.
pub const SCROLLBACK_HISTORY: usize = 10_000;

/// What to do about a link.
#[derive(Debug, Clone, Copy, PartialEq, Eq, Structural)]
pub enum LinkAction {
    /// Forget the link under the mouse.
    Clear,
    /// Note the link under the mouse.
    Hover,
    /// Open the link under the mouse.
    Open,
}

/// A place of the mouse in whole pixels, from the top left of the layout.
#[derive(Debug, Clone, Copy, PartialEq, Eq, Structural)]
pub struct Pixel {
    pub x: usize,
    pub y: usize,
}

/// What the backend is asked to do.
#[derive(Debug)]
pub enum Command {
    /// Send bytes to the program in the terminal.
    Write(Vec<u8>),
    /// Scroll by some lines, up if positive.
    Scroll(i32),
    /// Take over a layout, a cell size, or both.
    Resize(Option<LayoutSize>, Option<CellSize>),
    /// Begin a selection.
    SelectStart(SelectionType, Pixel),
    /// Move the end of the selection.
    SelectUpdate(Pixel),
    /// Do something about the link at a point.
    ProcessLink(LinkAction, Pos),
    /// Report a mouse event to the program in the terminal.
    MouseReport(MouseButton, Modifiers, Pos, bool),
    /// Take note of an event of the terminal core.
    ProcessRioEvent(RioEvent),
}

/// A command, with bytes and events by their contents.
pub enum CommandView {
    Write(Seq<u8>),
    Scroll(i32),
    Resize(Option<LayoutSize>, Option<CellSize>),
    SelectStart(SelectionType, Pixel),
    SelectUpdate(Pixel),
    ProcessLink(LinkAction, Pos),
    MouseReport(MouseButton, Modifiers, Pos, bool),
    ProcessRioEvent(EventView),
}

impl View for Command {
    type V = CommandView;

    open spec fn view(&self) -> CommandView {
        match self {
            Command::Write(input) => CommandView::Write(input@),
            Command::Scroll(delta) => CommandView::Scroll(*delta),
            Command::Resize(layout, cell) => CommandView::Resize(*layout, *cell),
            Command::SelectStart(ty, place) => CommandView::SelectStart(*ty, *place),
            Command::SelectUpdate(place) => CommandView::SelectUpdate(*place),
            Command::ProcessLink(action, point) => CommandView::ProcessLink(*action, *point),
            Command::MouseReport(button, modifiers, point, pressed) => CommandView::MouseReport(
                *button,
                *modifiers,
                *point,
                *pressed,
            ),
            Command::ProcessRioEvent(event) => CommandView::ProcessRioEvent(event_view(*event)),
        }
    }
}

impl Clone for Command {
    fn clone(&self) -> (r: Command)
        ensures
            r@ == self@,
    {
        match self {
            Command::Write(input) => {
                let bytes: Vec<u8> = input.clone();
                assert(bytes@ =~= input@);
                Command::Write(bytes)
            },
            Command::Scroll(delta) => Command::Scroll(*delta),
            Command::Resize(layout, cell) => Command::Resize(*layout, *cell),
            Command::SelectStart(ty, place) => Command::SelectStart(*ty, *place),
            Command::SelectUpdate(place) => Command::SelectUpdate(*place),
            Command::ProcessLink(action, point) => Command::ProcessLink(*action, *point),
            Command::MouseReport(button, modifiers, point, pressed) => Command::MouseReport(
                *button,
                *modifiers,
                *point,
                *pressed,
            ),
            Command::ProcessRioEvent(event) => Command::ProcessRioEvent(copy_event(event)),
        }
    }
}

/// How to scroll the display.
#[derive(Debug, Clone, Copy, PartialEq, Eq, Structural)]
pub enum Scroll {
    /// By some lines, into the history if positive.
    Delta(i32),
    /// To the screen.
    Bottom,
}

/// Something that has to be done outside the backend.
#[derive(Debug, Clone, PartialEq, Eq)]
pub enum Effect {
    /// Send bytes to the pseudo-terminal.
    Input(Vec<u8>),
    /// Scroll the display of the terminal.
    ScrollDisplay(Scroll),
    /// Work out which grid fits the layout, and hand it to `fit_grid`.
    FitGrid,
    /// Search for the link at a point, and hand it to `hover`.
    FindLink(Pos),
    /// Open a link.
    OpenLink(String),
}

/// An effect, with bytes and texts as sequences.
pub enum EffectView {
    Input(Seq<u8>),
    ScrollDisplay(Scroll),
    FitGrid,
    FindLink(Pos),
    OpenLink(Seq<char>),
}

impl View for Effect {
    type V = EffectView;

    open spec fn view(&self) -> EffectView {
        match self {
            Effect::Input(bytes) => EffectView::Input(bytes@),
            Effect::ScrollDisplay(scroll) => EffectView::ScrollDisplay(*scroll),
            Effect::FitGrid => EffectView::FitGrid,
            Effect::FindLink(point) => EffectView::FindLink(*point),
            Effect::OpenLink(url) => EffectView::OpenLink(url@),
        }
    }
}

/// What came of a command.
#[derive(Debug, Clone, PartialEq, Eq)]
pub struct Outcome {
    /// For the application that shows the terminal.
    pub action: Action,
    /// To be done in this order.
    pub effects: Vec<Effect>,
}

/// What came of a command, with bytes and texts as sequences.
pub struct OutcomeView {
    pub action: ActionView,
    pub effects: Seq<EffectView>,
}

impl View for Outcome {
    type V = OutcomeView;

    open spec fn view(&self) -> OutcomeView {
        OutcomeView {
            action: self.action@,
            effects: self.effects@.map_values(|effect: Effect| effect@),
        }
    }
}

/// An outcome for the outside only.
pub open spec fn effects_only(effects: Seq<EffectView>) -> OutcomeView {
    OutcomeView { action: ActionView::Ignore, effects }
}

/// An outcome for the application only.
pub open spec fn action_only(action: ActionView) -> OutcomeView {
    OutcomeView { action, effects: seq![] }
}

impl Outcome {
    fn nothing() -> (r: Outcome)
        ensures
            r@ == effects_only(seq![]),
    {
        let r: Outcome = Outcome { action: Action::default(), effects: Vec::new() };
        assert(r@.effects =~= seq![]);
        r
    }

    fn act(action: Action) -> (r: Outcome)
        ensures
            r@ == action_only(action@),
    {
        let r: Outcome = Outcome { action, effects: Vec::new() };
        assert(r@.effects =~= seq![]);
        r
    }

    fn effect(effect: Effect) -> (r: Outcome)
        ensures
            r@ == effects_only(seq![effect@]),
    {
        let mut effects: Vec<Effect> = Vec::new();
        effects.push(effect);
        let r: Outcome = Outcome { action: Action::default(), effects };
        assert(r@.effects =~= seq![effect@]);
        r
    }
}

/// Why there is no backend.
#[derive(Debug, Clone, Copy, PartialEq, Eq, Structural)]
pub enum BackendError {
    /// The link pattern cannot be compiled.
    InvalidUrlRegex,
}

/// What an event of the terminal core comes to.
pub open spec fn event_outcome(event: EventView) -> OutcomeView {
    match event {
        EventView::Exit | EventView::Quit | EventView::CloseTerminal(_) => action_only(
            ActionView::Shutdown,
        ),
        EventView::Title(title) => action_only(ActionView::ChangeTitle(title)),
        EventView::TitleWithSubtitle(title, _) => action_only(ActionView::ChangeTitle(title)),
        EventView::ResetTitle => action_only(ActionView::ChangeTitle(seq![])),
        EventView::PtyWrite(_, text) => effects_only(
            seq![EffectView::Input(vstd::utf8::encode_utf8(text))],
        ),
        EventView::Other => effects_only(seq![]),
    }
}

/// What an event of the terminal core comes to.
pub fn process_event(event: TerminalEvent) -> (r: Outcome)
    ensures
        r@ == event_outcome(event@),
{
    match event {
        TerminalEvent::Exit => Outcome::act(Action::Shutdown),
        TerminalEvent::Quit => Outcome::act(Action::Shutdown),
        TerminalEvent::CloseTerminal(_) => Outcome::act(Action::Shutdown),
        TerminalEvent::Title(title) => Outcome::act(Action::ChangeTitle(title)),
        TerminalEvent::TitleWithSubtitle(title, _) => Outcome::act(Action::ChangeTitle(title)),
        TerminalEvent::ResetTitle => Outcome::act(Action::ChangeTitle(String::new())),
        TerminalEvent::PtyWrite(_, text) => Outcome::effect(Effect::Input(text.into_bytes())),
        TerminalEvent::Other => Outcome::nothing(),
    }
}

/// The cursor keys that the wheel sends: `ESC O A` for every line up, or
/// `ESC O B` for every line down.
pub open spec fn wheel_keys(delta: int) -> Seq<u8> {
    Seq::new(
        (3 * if delta >= 0 { delta } else { -delta }) as nat,
        |i: int|
            if i % 3 == 0 {
                0x1bu8
            } else if i % 3 == 1 {
                79u8
            } else if delta > 0 {
                65u8
            } else {
                66u8
            },
    )
}

/// What turning the wheel comes to: on the alternate screen cursor keys, else
/// scrolling.
pub open spec fn scroll_effects(mode: TermMode, delta: i32) -> Seq<EffectView> {
    if delta == 0 {
        seq![]
    } else if mode.has(ALTERNATE_SCREEN_SCROLL) {
        seq![EffectView::Input(wheel_keys(delta as int))]
    } else {
        seq![EffectView::ScrollDisplay(Scroll::Delta(delta))]
    }
}

/// The cursor keys for `delta` lines.
fn wheel_key_bytes(delta: i32) -> (content: Vec<u8>)
    requires
        delta > i32::MIN,
    ensures
        content@ == wheel_keys(delta as int),
{
    let line_cmd: u8 = if delta > 0 { 65 } else { 66 };
    let count: i32 = if delta >= 0 { delta } else { -delta };
    let mut content: Vec<u8> = Vec::new();
    let mut i: i32 = 0;
    while i < count
        invariant
            0 <= i <= count,
            count == (if delta >= 0 { delta as int } else { -delta }),
            line_cmd == (if delta > 0 { 65u8 } else { 66u8 }),
            content@.len() == 3 * i,
            forall|j: int| 0 <= j < 3 * i ==> content@[j] == wheel_keys(delta as int)[j],
        decreases count - i,
    {
        content.push(0x1b);
        content.push(79);
        content.push(line_cmd);
        i += 1;
    }
    assert(content@ =~= wheel_keys(delta as int));
    content
}

/// What turning the wheel by `delta` lines comes to.
pub fn scroll(mode: TermMode, delta: i32) -> (r: Outcome)
    requires
        mode.has(ALTERNATE_SCREEN_SCROLL) ==> delta > i32::MIN,
    ensures
        r@ == effects_only(scroll_effects(mode, delta)),
{
    if delta == 0 {
        Outcome::nothing()
    } else if wheel_sends_keys(mode) {
        Outcome::effect(Effect::Input(wheel_key_bytes(delta)))
    } else {
        Outcome::effect(Effect::ScrollDisplay(Scroll::Delta(delta)))
    }
}

/// The half of the cell that `x` pixels are in. The middle belongs to the left
/// half.
pub open spec fn side_at(x: usize, cell_width: u16) -> Side {
    if x as int % cell_width as int > cell_width as int / 2 {
        Side::Right
    } else {
        Side::Left
    }
}

/// The effects of a report: none if there is no report.
pub open spec fn report_effects(report: Option<Seq<u8>>) -> Seq<EffectView> {
    match report {
        Some(bytes) => seq![EffectView::Input(bytes)],
        None => seq![],
    }
}

/// The state of a terminal backend: the size of the terminal, what the view
/// shows, and the link pattern.
pub struct Backend {
    size: TerminalSize,
    last_content: RenderableContent,
    url_regex: RegexSearch,
}

impl Backend {
    /// The size of the terminal.
    pub closed spec fn spec_size(self) -> TerminalSize {
        self.size
    }

    /// What the view shows.
    pub closed spec fn spec_content(self) -> RenderableContent {
        self.last_content
    }

    /// The compiled link pattern.
    pub closed spec fn spec_url_regex(self) -> RegexSearch {
        self.url_regex
    }

    /// A backend for a terminal with this grid and these modes. It has the
    /// default size, and shows the grid with its styles, its cursor and the
    /// modes.
    pub fn new(grid: &mut Grid<Square>, mode: TermMode) -> (r: Result<Backend, BackendError>)
        requires
            cursor_on_grid(grid_view(*old(grid))),
        ensures
            cursor_line_touched(*old(grid), *final(grid)),
            r is Ok == pattern_compiles(URL_REGEX@),
            r matches Err(error) ==> error == BackendError::InvalidUrlRegex,
            r matches Ok(backend) ==> {
                &&& backend.spec_size().cell_width == 1
                &&& backend.spec_size().cell_height == 1
                &&& backend.spec_size().num_cols() == 80
                &&& backend.spec_size().num_lines() == 50
                &&& backend.spec_size().layout == (LayoutSize {
                    width: DEFAULT_LAYOUT_WIDTH,
                    height: DEFAULT_LAYOUT_HEIGHT,
                })
                &&& shows(backend, *final(grid), None, mode)
                &&& backend.spec_content().hovered_hyperlink is None
                &&& search_pattern(backend.spec_url_regex()) == URL_REGEX@
            },
    {
        let size: TerminalSize = TerminalSize::default();
        let cursor: Square = cursor_cell(grid);
        let last_content: RenderableContent = RenderableContent {
            grid: copy_grid(grid),
            selectable_range: None,
            terminal_mode: mode,
            terminal_size: size,
            cursor,
            hovered_hyperlink: None,
        };
        match compile_pattern(URL_REGEX) {
            Ok(url_regex) => Ok(Backend { size, last_content, url_regex }),
            Err(_) => Err(BackendError::InvalidUrlRegex),
        }
    }

    /// The cell at `x`, `y` pixels when the display is scrolled back by
    /// `display_offset` lines. Beyond the grid it is the nearest cell.
    pub fn selection_point(
        x: usize,
        y: usize,
        terminal_size: &TerminalSize,
        display_offset: usize,
    ) -> (r: Pos)
        requires
            point_exists(y, *terminal_size, display_offset),
        ensures
            r == point_at(x, y, *terminal_size, display_offset),
    {
        let col: usize = x / (terminal_size.cell_width as usize);
        let last_column: usize = terminal_size.last_column();
        let col: usize = if col <= last_column { col } else { last_column };
        let line: usize = y / (terminal_size.cell_height as usize);
        let last_line: usize = terminal_size.screen_lines() - 1;
        let line: usize = if line <= last_line { line } else { last_line };
        let offset: i32 = #[verifier::truncate] (display_offset as i32);
        Pos { row: line as i32 - offset, col }
    }

    /// The half of the cell that `x` pixels are in.
    pub fn selection_side(&self, x: usize) -> (r: Side)
        requires
            self.spec_size().cell_width > 0,
        ensures
            r == side_at(x, self.spec_size().cell_width),
    {
        let cell_x: usize = x % self.size.cell_width as usize;
        let half_cell_width: usize = (self.size.cell_width / 2) as usize;
        if cell_x > half_cell_width {
            Side::Right
        } else {
            Side::Left
        }
    }

    /// Begins a selection at a place of the displayed area.
    pub fn start_selection(
        &self,
        grid: &Grid<Square>,
        selection_type: SelectionType,
        place: Pixel,
    ) -> (r: Selection)
        requires
            point_exists(place.y, self.spec_size(), grid_display_offset(*grid)),
        ensures
            begun_at(
                r,
                selection_type,
                anchor_at(self.spec_size(), grid_display_offset(*grid), place),
            ),
    {
        let location: Pos = Self::selection_point(
            place.x,
            place.y,
            &self.size,
            display_offset(grid),
        );
        new_selection(selection_type, location, self.selection_side(place.x))
    }

    /// Moves the end of the selection, if there is one, to a place of the
    /// displayed area.
    pub fn update_selection(
        &self,
        grid: &Grid<Square>,
        selection: &mut Option<Selection>,
        place: Pixel,
    )
        requires
            *old(selection) is Some ==> point_exists(
                place.y,
                self.spec_size(),
                grid_display_offset(*grid),
            ),
        ensures
            moved_to(
                *old(selection),
                *final(selection),
                anchor_at(self.spec_size(), grid_display_offset(*grid), place),
            ),
    {
        if let Some(current) = selection {
            let location: Pos = Self::selection_point(
                place.x,
                place.y,
                &self.size,
                display_offset(grid),
            );
            move_selection_end(current, location, self.selection_side(place.x));
        }
    }

    /// Takes over a new layout and a new cell size, where given. Which grid
    /// fits is worked out elsewhere and comes back through `fit_grid`.
    pub fn resize(&mut self, layout: Option<LayoutSize>, cell: Option<CellSize>)
        ensures
            measured(*old(self), *final(self), layout, cell),
    {
        self.size.measure(layout, cell);
    }

    /// Takes over the grid that fits the layout, and says what the
    /// pseudo-terminal is to be told. A fit without a line or without a column
    /// changes nothing.
    pub fn fit_grid(&mut self, fit: GridFit) -> (r: Option<WindowSize>)
        ensures
            fitted(*old(self), *final(self), fit, r),
    {
        self.size.fit_grid(fit)
    }

    /// Notes the link under the mouse, or that there is none.
    pub fn hover(&mut self, link: Option<Match>)
        ensures
            rehovered(*old(self), *final(self), link),
    {
        self.last_content.hovered_hyperlink = link;
    }

    /// Does something about the link at a point. Hovering asks for a search,
    /// whose result comes back through `hover`.
    pub fn process_link_action(&mut self, link_action: LinkAction, point: Pos) -> (r: Outcome)
        requires
            link_action == LinkAction::Open ==> link_opens(old(self).spec_content()),
        ensures
            link_processed(*old(self), *final(self), link_action, point, r@),
    {
        match link_action {
            LinkAction::Hover => Outcome::effect(Effect::FindLink(point)),
            LinkAction::Clear => {
                self.last_content.hovered_hyperlink = None;
                Outcome::nothing()
            },
            LinkAction::Open => self.open_link(),
        }
    }

    /// Opens the link under the mouse, if there is one.
    pub fn open_link(&self) -> (r: Outcome)
        requires
            link_opens(self.spec_content()),
        ensures
            r@ == effects_only(open_effects(self.spec_content())),
    {
        match self.last_content.hovered_hyperlink {
            Some(link) => Outcome::effect(Effect::OpenLink(self.last_content.link_text(link))),
            None => Outcome::nothing(),
        }
    }

    /// Reports a mouse event in the protocol of the shown terminal.
    pub fn process_mouse_report(
        &self,
        button: MouseButton,
        modifiers: Modifiers,
        point: Pos,
        pressed: bool,
    ) -> (r: Outcome)
        requires
            reportable(mouse_mode(self.spec_content().terminal_mode), point),
        ensures
            reported(self.spec_content().terminal_mode, button, modifiers, point, pressed, r@),
    {
        match process_mouse_report(
            self.last_content.terminal_mode,
            button,
            modifiers,
            point,
            pressed,
        ) {
            Some(msg) => Outcome::effect(Effect::Input(msg)),
            None => Outcome::nothing(),
        }
    }

    /// Carries out a command. `grid`, `selection` and `mode` are those of the
    /// terminal; the effects that come back are to be carried out on it, in
    /// their order.
    pub fn handle(
        &mut self,
        grid: &Grid<Square>,
        selection: &mut Option<Selection>,
        mode: TermMode,
        cmd: Command,
    ) -> (r: Outcome)
        requires
            admits(*old(self), *grid, *old(selection), mode, cmd),
        ensures
            handled(
                *old(self),
                *final(self),
                *grid,
                *old(selection),
                *final(selection),
                mode,
                cmd,
                r@,
            ),
    {
        match cmd {
            Command::ProcessRioEvent(event) => process_event(terminal_event(event)),
            Command::Write(input) => {
                let mut effects: Vec<Effect> = Vec::new();
                effects.push(Effect::Input(input));
                effects.push(Effect::ScrollDisplay(Scroll::Bottom));
                let r: Outcome = Outcome { action: Action::default(), effects };
                assert(r@.effects =~= seq![
                    EffectView::Input(input@),
                    EffectView::ScrollDisplay(Scroll::Bottom),
                ]);
                r
            },
            Command::Scroll(delta) => scroll(mode, delta),
            Command::Resize(layout, cell) => {
                self.resize(layout, cell);
                Outcome::effect(Effect::FitGrid)
            },
            Command::SelectStart(selection_type, place) => {
                *selection = Some(self.start_selection(grid, selection_type, place));
                Outcome::nothing()
            },
            Command::SelectUpdate(place) => {
                self.update_selection(grid, selection, place);
                Outcome::nothing()
            },
            Command::ProcessLink(link_action, point) => self.process_link_action(
                link_action,
                point,
            ),
            Command::MouseReport(button, modifiers, point, pressed) => self.process_mouse_report(
                button,
                modifiers,
                point,
                pressed,
            ),
        }
    }

    /// Takes a snapshot of the terminal: its grid with the cursor, the selected
    /// range and the modes. The link under the mouse is kept.
    pub fn sync(
        &mut self,
        grid: &mut Grid<Square>,
        selectable_range: Option<SelectionRange>,
        mode: TermMode,
    )
        requires
            cursor_on_grid(grid_view(*old(grid))),
        ensures
            shows(*final(self), *final(grid), selectable_range, mode),
            cursor_line_touched(*old(grid), *final(grid)),
            final(self).spec_size() == old(self).spec_size(),
            final(self).spec_url_regex() == old(self).spec_url_regex(),
            final(self).spec_content().hovered_hyperlink
                == old(self).spec_content().hovered_hyperlink,
    {
        let cursor: Square = cursor_cell(grid);
        self.last_content.grid = copy_grid(grid);
        self.last_content.selectable_range = selectable_range;
        self.last_content.cursor = cursor;
        self.last_content.terminal_mode = mode;
        self.last_content.terminal_size = self.size;
    }

    /// What the view shows.
    pub fn renderable_content(&self) -> (r: &RenderableContent)
        ensures
            *r == self.spec_content(),
    {
        &self.last_content
    }

    /// The selected text of the displayed area; none where nothing is
    /// selected.
    pub fn selectable_content(&self) -> (r: String)
        requires
            self.spec_content().selectable_range is Some ==> walkable(
                grid_view(self.spec_content().grid),
            ),
        ensures
            r@ == (match self.spec_content().selectable_range {
                Some(range) => selected_chars(
                    displayed_cells(grid_view(self.spec_content().grid)),
                    range,
                ),
                None => seq![],
            }),
    {
        self.last_content.selectable_content()
    }

    /// The size of the terminal.
    pub fn size(&self) -> (r: TerminalSize)
        ensures
            r == self.spec_size(),
    {
        self.size
    }

    /// The compiled link pattern.
    pub fn url_regex(&self) -> (r: &RegexSearch)
        ensures
            *r == self.spec_url_regex(),
    {
        &self.url_regex
    }

    /// Whether a command can be carried out.
    pub fn is_admitted(
        &self,
        grid: &Grid<Square>,
        selection: &Option<Selection>,
        mode: TermMode,
        cmd: &Command,
    ) -> (r: bool)
        ensures
            r == admits(*self, *grid, *selection, mode, *cmd),
    {
        match cmd {
            Command::Scroll(delta) => !wheel_sends_keys(mode) || *delta > i32::MIN,
            Command::SelectStart(_, place) => does_point_exist(
                place.y,
                &self.size,
                display_offset(grid),
            ),
            Command::SelectUpdate(place) => selection.is_none() || does_point_exist(
                place.y,
                &self.size,
                display_offset(grid),
            ),
            Command::ProcessLink(LinkAction::Open, _) => {
                match self.last_content.hovered_hyperlink {
                    Some(link) => {
                        is_walkable(&self.last_content.grid) && has_cell(
                            &self.last_content.grid,
                            link.start,
                        )
                    },
                    None => true,
                }
            },
            Command::MouseReport(_, _, point, _) => is_reportable(
                MouseMode::from(self.last_content.terminal_mode),
                *point,
            ),
            _ => true,
        }
    }
}

/// The end of a selection at a place of the displayed area.
pub open spec fn anchor_at(size: TerminalSize, display_offset: usize, place: Pixel) -> Anchor {
    Anchor {
        point: point_at(place.x, place.y, size, display_offset),
        side: side_at(place.x, size.cell_width),
    }
}

/// Whether a selection has just been begun at `anchor`.
pub open spec fn begun_at(selection: Selection, ty: SelectionType, anchor: Anchor) -> bool {
    &&& selection_type(selection) == ty
    &&& selection_start(selection) == anchor
    &&& selection_end(selection) == anchor
}

/// Whether the end of a selection, if there is one, went to `anchor`, and
/// nothing else of it changed.
pub open spec fn moved_to(
    before: Option<Selection>,
    after: Option<Selection>,
    anchor: Anchor,
) -> bool {
    match before {
        Some(old_selection) => {
            &&& after matches Some(new_selection)
            &&& selection_type(new_selection) == selection_type(old_selection)
            &&& selection_start(new_selection) == selection_start(old_selection)
            &&& selection_end(new_selection) == anchor
        },
        None => after is None,
    }
}

/// Whether a new layout and a new cell size, where given, were taken over, and
/// nothing else changed.
pub open spec fn measured(
    before: Backend,
    after: Backend,
    layout: Option<LayoutSize>,
    cell: Option<CellSize>,
) -> bool {
    &&& after.spec_content() == before.spec_content()
    &&& after.spec_url_regex() == before.spec_url_regex()
    &&& after.spec_size().num_cols() == before.spec_size().num_cols()
    &&& after.spec_size().num_lines() == before.spec_size().num_lines()
    &&& after.spec_size().layout == (match layout {
        Some(size) => size,
        None => before.spec_size().layout,
    })
    &&& after.spec_size().cell_width == (match cell {
        Some(size) => size.width,
        None => before.spec_size().cell_width,
    })
    &&& after.spec_size().cell_height == (match cell {
        Some(size) => size.height,
        None => before.spec_size().cell_height,
    })
}

/// Whether a fit was taken over and is to be told, and nothing else changed; a
/// fit without a line or without a column changes nothing at all.
pub open spec fn fitted(
    before: Backend,
    after: Backend,
    fit: GridFit,
    told: Option<WindowSize>,
) -> bool {
    if fit.lines == 0 || fit.cols == 0 {
        after == before && told is None
    } else {
        &&& told == Some(
            WindowSize { rows: fit.lines, cols: fit.cols, width: fit.width, height: fit.height },
        )
        &&& after.spec_content() == before.spec_content()
        &&& after.spec_url_regex() == before.spec_url_regex()
        &&& after.spec_size().num_lines() == fit.lines
        &&& after.spec_size().num_cols() == fit.cols
        &&& after.spec_size().layout == before.spec_size().layout
        &&& after.spec_size().cell_width == before.spec_size().cell_width
        &&& after.spec_size().cell_height == before.spec_size().cell_height
    }
}

/// Whether `link` is now the link under the mouse, and nothing else changed.
pub open spec fn rehovered(before: Backend, after: Backend, link: Option<Match>) -> bool {
    &&& after.spec_size() == before.spec_size()
    &&& after.spec_url_regex() == before.spec_url_regex()
    &&& after.spec_content() == (RenderableContent {
        hovered_hyperlink: link,
        ..before.spec_content()
    })
}

/// Whether the link under the mouse, if there is one, can be read.
pub open spec fn link_opens(content: RenderableContent) -> bool {
    content.hovered_hyperlink matches Some(link) ==> link_readable(grid_view(content.grid), link)
}

/// The effects of opening the link under the mouse.
pub open spec fn open_effects(content: RenderableContent) -> Seq<EffectView> {
    match content.hovered_hyperlink {
        Some(link) => seq![EffectView::OpenLink(link_chars(grid_view(content.grid), link))],
        None => seq![],
    }
}

/// What doing something about a link comes to.
pub open spec fn link_processed(
    before: Backend,
    after: Backend,
    action: LinkAction,
    point: Pos,
    outcome: OutcomeView,
) -> bool {
    match action {
        LinkAction::Hover => {
            &&& after == before
            &&& outcome == effects_only(seq![EffectView::FindLink(point)])
        },
        LinkAction::Clear => {
            &&& rehovered(before, after, None)
            &&& outcome == effects_only(seq![])
        },
        LinkAction::Open => {
            &&& after == before
            &&& outcome == effects_only(open_effects(before.spec_content()))
        },
    }
}

/// What reporting a mouse event comes to. Which key is the command key depends
/// on the machine.
pub open spec fn reported(
    mode: TermMode,
    button: MouseButton,
    modifiers: Modifiers,
    point: Pos,
    pressed: bool,
    outcome: OutcomeView,
) -> bool {
    let with_command = |command: u32|
        effects_only(
            report_effects(
                mouse_report(mouse_mode(mode), button, held_keys(modifiers, command), point, pressed),
            ),
        );
    outcome == with_command(CTRL) || outcome == with_command(LOGO)
}

/// Whether a command can be carried out: the numbers that it leads to fit
/// their types, no cell size is zero where one divides by it, and a link that
/// is to be opened begins on the shown grid.
pub open spec fn admits(
    backend: Backend,
    grid: Grid<Square>,
    selection: Option<Selection>,
    mode: TermMode,
    cmd: Command,
) -> bool {
    match cmd {
        Command::Scroll(delta) => mode.has(ALTERNATE_SCREEN_SCROLL) ==> delta > i32::MIN,
        Command::SelectStart(_, place) => point_exists(
            place.y,
            backend.spec_size(),
            grid_display_offset(grid),
        ),
        Command::SelectUpdate(place) => selection is Some ==> point_exists(
            place.y,
            backend.spec_size(),
            grid_display_offset(grid),
        ),
        Command::ProcessLink(action, _) => action == LinkAction::Open ==> link_opens(
            backend.spec_content(),
        ),
        Command::MouseReport(_, _, point, _) => reportable(
            mouse_mode(backend.spec_content().terminal_mode),
            point,
        ),
        _ => true,
    }
}

/// What a command comes to: what it changes in the backend and the selection,
/// and its outcome.
pub open spec fn handled(
    before: Backend,
    after: Backend,
    grid: Grid<Square>,
    selection_before: Option<Selection>,
    selection_after: Option<Selection>,
    mode: TermMode,
    cmd: Command,
    outcome: OutcomeView,
) -> bool {
    match cmd {
        Command::Write(input) => {
            &&& after == before
            &&& selection_after == selection_before
            &&& outcome == effects_only(
                seq![EffectView::Input(input@), EffectView::ScrollDisplay(Scroll::Bottom)],
            )
        },
        Command::Scroll(delta) => {
            &&& after == before
            &&& selection_after == selection_before
            &&& outcome == effects_only(scroll_effects(mode, delta))
        },
        Command::Resize(layout, cell) => {
            &&& measured(before, after, layout, cell)
            &&& selection_after == selection_before
            &&& outcome == effects_only(seq![EffectView::FitGrid])
        },
        Command::SelectStart(ty, place) => {
            &&& after == before
            &&& selection_after matches Some(selection)
            &&& begun_at(
                selection,
                ty,
                anchor_at(before.spec_size(), grid_display_offset(grid), place),
            )
            &&& outcome == effects_only(seq![])
        },
        Command::SelectUpdate(place) => {
            &&& after == before
            &&& moved_to(
                selection_before,
                selection_after,
                anchor_at(before.spec_size(), grid_display_offset(grid), place),
            )
            &&& outcome == effects_only(seq![])
        },
        Command::ProcessLink(action, point) => {
            &&& link_processed(before, after, action, point, outcome)
            &&& selection_after == selection_before
        },
        Command::MouseReport(button, modifiers, point, pressed) => {
            &&& after == before
            &&& selection_after == selection_before
            &&& reported(
                before.spec_content().terminal_mode,
                button,
                modifiers,
                point,
                pressed,
                outcome,
            )
        },
        Command::ProcessRioEvent(event) => {
            &&& after == before
            &&& selection_after == selection_before
            &&& outcome == event_outcome(event_view(event))
        },
    }
}

/// The packed bits of the cell under the cursor.
pub open spec fn cursor_bits(grid: GridView) -> u64 {
    grid.cells[grid.cursor.row as int][grid.cursor.col as int]
}

/// Whether the backend shows this grid with its cursor, this selection and
/// these modes, at its own size.
pub open spec fn shows(
    backend: Backend,
    grid: Grid<Square>,
    range: Option<SelectionRange>,
    mode: TermMode,
) -> bool {
    &&& grid_view(backend.spec_content().grid) == grid_view(grid)
    &&& grid_dirty_lines(backend.spec_content().grid) == grid_dirty_lines(grid)
    &&& square_bits(backend.spec_content().cursor) == cursor_bits(grid_view(grid))
    &&& backend.spec_content().selectable_range == range
    &&& backend.spec_content().terminal_mode == mode
    &&& backend.spec_content().terminal_size == backend.spec_size()
}

/// No command changes what is not its own: only resizing changes the size, and
/// not the grid; only clearing the link changes what is shown, and only the
/// link; only the two selection commands change the selection; and nothing
/// changes the link pattern.
pub proof fn commands_change_only_their_own(
    before: Backend,
    after: Backend,
    grid: Grid<Square>,
    selection_before: Option<Selection>,
    selection_after: Option<Selection>,
    mode: TermMode,
    cmd: Command,
    outcome: OutcomeView,
)
    requires
        handled(
            before,
            after,
            grid,
            selection_before,
            selection_after,
            mode,
            cmd,
            outcome,
        ),
    ensures
        after.spec_url_regex() == before.spec_url_regex(),
        after.spec_size().num_cols() == before.spec_size().num_cols(),
        after.spec_size().num_lines() == before.spec_size().num_lines(),
        !(cmd is Resize) ==> after.spec_size() == before.spec_size(),
        after.spec_content() == (RenderableContent {
            hovered_hyperlink: after.spec_content().hovered_hyperlink,
            ..before.spec_content()
        }),
        !(cmd matches Command::ProcessLink(action, _) && action == LinkAction::Clear)
            ==> after.spec_content() == before.spec_content(),
        !(cmd is SelectStart) && !(cmd is SelectUpdate) ==> selection_after == selection_before,
{
}

/// A copy of a command is carried out like the command itself.
pub proof fn copies_are_handled_alike(
    before: Backend,
    after: Backend,
    grid: Grid<Square>,
    selection_before: Option<Selection>,
    selection_after: Option<Selection>,
    mode: TermMode,
    cmd: Command,
    copy: Command,
    outcome: OutcomeView,
)
    requires
        copy@ == cmd@,
    ensures
        admits(before, grid, selection_before, mode, copy) == admits(
            before,
            grid,
            selection_before,
            mode,
            cmd,
        ),
        handled(before, after, grid, selection_before, selection_after, mode, copy, outcome)
            == handled(before, after, grid, selection_before, selection_after, mode, cmd, outcome),
{
}

/// A snapshot is painted like the terminal: every cell, and the cell under the
/// cursor, has the same colors and flags in the style table of the shown grid.
pub proof fn snapshot_is_painted_like_the_terminal(
    backend: Backend,
    grid: Grid<Square>,
    range: Option<SelectionRange>,
    mode: TermMode,
    row: int,
    col: int,
)
    requires
        shows(backend, grid, range, mode),
    ensures
        ({
            let shown = grid_view(backend.spec_content().grid);
            let view = grid_view(grid);
            &&& paint(shown.cells[row][col], shown.styles) == paint(
                view.cells[row][col],
                view.styles,
            )
            &&& paint(square_bits(backend.spec_content().cursor), shown.styles) == paint(
                cursor_bits(view),
                view.styles,
            )
        }),
{
}

/// Only an event of the terminal core asks the application for anything.
pub proof fn only_events_ask_for_actions(
    before: Backend,
    after: Backend,
    grid: Grid<Square>,
    selection_before: Option<Selection>,
    selection_after: Option<Selection>,
    mode: TermMode,
    cmd: Command,
    outcome: OutcomeView,
)
    requires
        handled(
            before,
            after,
            grid,
            selection_before,
            selection_after,
            mode,
            cmd,
            outcome,
        ),
        !(cmd is ProcessRioEvent),
    ensures
        outcome.action == ActionView::Ignore,
{
}

/// A link that has been noted is the one that is opened, with the text that it
/// has in the shown grid.
pub proof fn hovered_link_is_opened(
    before: Backend,
    hovering: Backend,
    after: Backend,
    link: Match,
    point: Pos,
    outcome: OutcomeView,
)
    requires
        rehovered(before, hovering, Some(link)),
        link_processed(hovering, after, LinkAction::Open, point, outcome),
    ensures
        outcome == effects_only(
            seq![
                EffectView::OpenLink(link_chars(grid_view(before.spec_content().grid), link)),
            ],
        ),
        after == hovering,
{
}

/// After the link has been forgotten there is nothing to open.
pub proof fn cleared_link_is_not_opened(
    before: Backend,
    cleared: Backend,
    after: Backend,
    point: Pos,
    other: Pos,
    clearing: OutcomeView,
    opening: OutcomeView,
)
    requires
        link_processed(before, cleared, LinkAction::Clear, point, clearing),
        link_processed(cleared, after, LinkAction::Open, other, opening),
    ensures
        opening == effects_only(seq![]),
        link_opens(cleared.spec_content()),
{
}

/// A selection that was begun and then moved reaches from where it was begun
/// to where it was moved, in the way that it was begun.
pub proof fn selection_reaches_from_start_to_end(
    begun: Selection,
    moved: Selection,
    ty: SelectionType,
    start: Anchor,
    end: Anchor,
)
    requires
        begun_at(begun, ty, start),
        moved_to(Some(begun), Some(moved), end),
    ensures
        selection_type(moved) == ty,
        selection_start(moved) == start,
        selection_end(moved) == end,
{
}

/// Turning the wheel in two steps in the same direction sends the same keys as
/// turning it at once.
pub proof fn wheel_steps_add_up(first: int, second: int)
    requires
        (first > 0 && second > 0) || (first < 0 && second < 0),
    ensures
        wheel_keys(first + second) == wheel_keys(first) + wheel_keys(second),
{
    let all = wheel_keys(first + second);
    let parts = wheel_keys(first) + wheel_keys(second);
    assert(all =~= parts) by {
        assert forall|i: int| 0 <= i < all.len() implies all[i] == parts[i] by {
            let skipped = wheel_keys(first).len() as int;
            if i >= skipped {
                assert(parts[i] == wheel_keys(second)[i - skipped]);
                assert((i - skipped) % 3 == i % 3);
            }
        }
    }
}

} // verus!
