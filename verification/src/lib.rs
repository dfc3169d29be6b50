//! The decision core of a terminal backend: what a command does to the
//! backend's state, and what has to be sent, scrolled, searched or opened
//! because of it.

pub mod backend;
pub mod colors;
pub mod content;
pub mod decimal;
pub mod event;
pub mod grid;
pub mod laws;
pub mod links;
pub mod mode;
pub mod mouse;
pub mod point;
pub mod selection;
pub mod size;

pub use backend::Command as BackendCommand;
pub use backend::LinkAction;
pub use mode::{MouseMode, TermMode};
pub use mouse::MouseButton;
pub use point::Pos as TerminalPoint;
pub use rio_vt::event::RioEvent;
pub use selection::SelectionType;
