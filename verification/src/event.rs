//! Events of the terminal core, and what the application is asked to do.
use rio_vt::event::RioEvent;
use vstd::prelude::*;

verus! {

/// What the application that shows the terminal is asked to do.
#[derive(Debug, Clone, PartialEq, Eq)]
pub enum Action {
    /// Close the terminal.
    Shutdown,
    /// Show another title.
    ChangeTitle(String),
    /// Nothing.
    Ignore,
}

/// An action, with the title as its characters.
pub enum ActionView {
    Shutdown,
    ChangeTitle(Seq<char>),
    Ignore,
}

impl View for Action {
    type V = ActionView;

    open spec fn view(&self) -> ActionView {
        match self {
            Action::Shutdown => ActionView::Shutdown,
            Action::ChangeTitle(title) => ActionView::ChangeTitle(title@),
            Action::Ignore => ActionView::Ignore,
        }
    }
}

impl Default for Action {
    fn default() -> (r: Action)
        ensures
            r@ == ActionView::Ignore,
    {
        Action::Ignore
    }
}

/// An event of the terminal core, as far as the backend tells them apart.
#[derive(Debug, Clone)]
pub enum TerminalEvent {
    Exit,
    Quit,
    /// The terminal of a route is to be closed.
    CloseTerminal(usize),
    Title(String),
    TitleWithSubtitle(String, String),
    ResetTitle,
    /// Text for the program in the terminal of a route.
    PtyWrite(usize, String),
    /// Any other event.
    Other,
}

/// An event, with texts as their characters.
pub enum EventView {
    Exit,
    Quit,
    CloseTerminal(usize),
    Title(Seq<char>),
    TitleWithSubtitle(Seq<char>, Seq<char>),
    ResetTitle,
    PtyWrite(usize, Seq<char>),
    Other,
}

impl View for TerminalEvent {
    type V = EventView;

    open spec fn view(&self) -> EventView {
        match self {
            TerminalEvent::Exit => EventView::Exit,
            TerminalEvent::Quit => EventView::Quit,
            TerminalEvent::CloseTerminal(route) => EventView::CloseTerminal(*route),
            TerminalEvent::Title(title) => EventView::Title(title@),
            TerminalEvent::TitleWithSubtitle(title, subtitle) => EventView::TitleWithSubtitle(
                title@,
                subtitle@,
            ),
            TerminalEvent::ResetTitle => EventView::ResetTitle,
            TerminalEvent::PtyWrite(route, text) => EventView::PtyWrite(*route, text@),
            TerminalEvent::Other => EventView::Other,
        }
    }
}

/// `rio_vt`'s event.
#[verifier::external_type_specification]
#[verifier::external_body]
pub struct ExRioEvent(rio_vt::event::RioEvent);

/// Which event it is.
pub uninterp spec fn event_view(event: RioEvent) -> EventView;

/// `RioEvent::clone`: the same event.
#[verifier::external_body]
pub(crate) fn copy_event(event: &RioEvent) -> (r: RioEvent)
    ensures
        event_view(r) == event_view(*event),
{
    event.clone()
}

/// Tells the variants of `RioEvent` apart. Of those that the backend ignores nothing is
/// kept.
#[verifier::external_body]
pub(crate) fn terminal_event(event: RioEvent) -> (r: TerminalEvent)
    ensures
        r@ == event_view(event),
{
    match event {
        RioEvent::Exit => TerminalEvent::Exit,
        RioEvent::Quit => TerminalEvent::Quit,
        RioEvent::CloseTerminal(route) => TerminalEvent::CloseTerminal(route),
        RioEvent::Title(title) => TerminalEvent::Title(title),
        RioEvent::TitleWithSubtitle(title, sub) => TerminalEvent::TitleWithSubtitle(title, sub),
        RioEvent::ResetTitle => TerminalEvent::ResetTitle,
        RioEvent::PtyWrite(route, text) => TerminalEvent::PtyWrite(route, text),
        _ => TerminalEvent::Other,
    }
}

} // verus!
