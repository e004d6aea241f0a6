//! What reaches the dashboard: events of the terminal, and news of the
//! pollers.

use crate::dashboard::actions::KeyEvent;
use vstd::prelude::*;

verus! {

/// A button of the mouse.
#[derive(Debug, Clone, Copy, PartialEq, Eq, Structural)]
pub enum MouseButton {
    Left,
    Right,
    Middle,
}

/// What the mouse did.
#[derive(Debug, Clone, Copy, PartialEq, Eq, Structural)]
pub enum MouseEventKind {
    Down(MouseButton),
    Up(MouseButton),
    Drag(MouseButton),
    Moved,
    ScrollDown,
    ScrollUp,
    ScrollLeft,
    ScrollRight,
}

/// A mouse event of the terminal, with the cell it happened in.
#[derive(Debug, Clone, Copy, PartialEq, Eq, Structural)]
pub struct MouseEvent {
    pub kind: MouseEventKind,
    pub column: u16,
    pub row: u16,
}

/// An event of the terminal.
#[derive(Debug, Clone, Copy, PartialEq, Eq, Structural)]
pub enum TerminalEvent {
    Key(KeyEvent),
    Mouse(MouseEvent),
    /// The terminal now has this many columns and rows.
    Resize(u16, u16),
    /// Any other event.
    Other,
}

/// An event of the dashboard.
#[derive(Debug, Clone, Copy, PartialEq, Eq, Structural)]
pub enum AppEvent {
    /// A key event.
    Key(KeyEvent),
    /// A mouse event.
    Mouse(MouseEvent),
    /// The terminal now has this many columns and rows.
    Resize(u16, u16),
    /// It is time to draw.
    Tick,
    /// The data of the service has changed.
    GithubUpdated,
    /// The metrics of the machine have changed.
    SystemUpdated,
}

impl From<TerminalEvent> for AppEvent {
    fn from(event: TerminalEvent) -> (r: AppEvent) {
        match event {
            TerminalEvent::Key(key) => AppEvent::Key(key),
            TerminalEvent::Mouse(mouse) => AppEvent::Mouse(mouse),
            TerminalEvent::Resize(columns, rows) => AppEvent::Resize(columns, rows),
            TerminalEvent::Other => AppEvent::Tick,
        }
    }
}

impl vstd::std_specs::convert::FromSpecImpl<TerminalEvent> for AppEvent {
    open spec fn obeys_from_spec() -> bool {
        true
    }

    /// Key, mouse and resize events stay what they are; any other event of
    /// the terminal is a tick.
    open spec fn from_spec(event: TerminalEvent) -> AppEvent {
        match event {
            TerminalEvent::Key(key) => AppEvent::Key(key),
            TerminalEvent::Mouse(mouse) => AppEvent::Mouse(mouse),
            TerminalEvent::Resize(columns, rows) => AppEvent::Resize(columns, rows),
            TerminalEvent::Other => AppEvent::Tick,
        }
    }
}

} // verus!
