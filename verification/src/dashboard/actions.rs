//! What the user can ask of the dashboard, and which key asks for what.

use vstd::prelude::*;

verus! {

/// A key of the keyboard.
#[derive(Debug, Clone, Copy, PartialEq, Eq, Structural)]
pub enum KeyCode {
    Backspace,
    Enter,
    Left,
    Right,
    Up,
    Down,
    Home,
    End,
    PageUp,
    PageDown,
    Tab,
    BackTab,
    Delete,
    Insert,
    F(u8),
    Char(char),
    Esc,
    /// Any other key.
    Other,
}

/// The modifier keys that are looked at.
#[derive(Debug, Clone, Copy, PartialEq, Eq, Structural)]
pub struct KeyModifiers {
    pub shift: bool,
    pub control: bool,
}

/// Whether a key went down, is held or came up.
#[derive(Debug, Clone, Copy, PartialEq, Eq, Structural)]
pub enum KeyEventKind {
    Press,
    Repeat,
    Release,
}

/// A key event of the terminal.
#[derive(Debug, Clone, Copy, PartialEq, Eq, Structural)]
pub struct KeyEvent {
    pub code: KeyCode,
    pub modifiers: KeyModifiers,
    pub kind: KeyEventKind,
}

/// What the user can ask of the dashboard.
#[derive(Debug, Clone, Copy, PartialEq, Eq, Structural)]
pub enum Action {
    /// Leave.
    Quit,
    /// Refresh the data of the service now.
    RefreshGithub,
    /// Go to the next page.
    NextPage,
    /// Go to the page before.
    PrevPage,
    /// Go to the page with this index, counted from zero.
    GoToPage(usize),
    /// Move the focus to the next area.
    CycleFocus,
    /// Scroll up by a line.
    ScrollUp,
    /// Scroll down by a line.
    ScrollDown,
    /// Select the next item of a list.
    SelectNext,
    /// Select the item before in a list.
    SelectPrev,
    /// Show or hide the help.
    ToggleHelp,
    /// Pause or resume the animations.
    TogglePause,
    /// Nothing at all.
    Nothing,
}

/// What a character key asks for.
pub open spec fn char_action(c: char, modifiers: KeyModifiers) -> Action {
    if c == 'q' {
        Action::Quit
    } else if c == 'c' && modifiers.control {
        Action::Quit
    } else if c == 'r' {
        Action::RefreshGithub
    } else if c == '1' {
        Action::GoToPage(0)
    } else if c == '2' {
        Action::GoToPage(1)
    } else if c == '3' {
        Action::GoToPage(2)
    } else if c == '4' {
        Action::GoToPage(3)
    } else if c == '?' {
        Action::ToggleHelp
    } else if c == 'h' {
        Action::ToggleHelp
    } else if c == 'p' {
        Action::TogglePause
    } else if c == 'k' {
        Action::ScrollUp
    } else if c == 'j' {
        Action::ScrollDown
    } else {
        Action::Nothing
    }
}

/// What a key asks for. Whether the key went down or came up plays no
/// part.
pub open spec fn key_action(key: KeyEvent) -> Action {
    match key.code {
        KeyCode::Char(c) => char_action(c, key.modifiers),
        KeyCode::Tab => if key.modifiers.shift {
            Action::PrevPage
        } else {
            Action::CycleFocus
        },
        KeyCode::Up => Action::ScrollUp,
        KeyCode::Down => Action::ScrollDown,
        KeyCode::Left => Action::PrevPage,
        KeyCode::Right => Action::NextPage,
        KeyCode::Enter => Action::SelectNext,
        KeyCode::PageUp => Action::ScrollUp,
        KeyCode::PageDown => Action::ScrollDown,
        _ => Action::Nothing,
    }
}

impl Action {
    /// What the key asks for.
    pub fn from_key_event(key: KeyEvent) -> (r: Action)
        ensures
            r == key_action(key),
    {
        match key.code {
            KeyCode::Char(c) => {
                if c == 'q' {
                    Action::Quit
                } else if c == 'c' && key.modifiers.control {
                    Action::Quit
                } else if c == 'r' {
                    Action::RefreshGithub
                } else if c == '1' {
                    Action::GoToPage(0)
                } else if c == '2' {
                    Action::GoToPage(1)
                } else if c == '3' {
                    Action::GoToPage(2)
                } else if c == '4' {
                    Action::GoToPage(3)
                } else if c == '?' || c == 'h' {
                    Action::ToggleHelp
                } else if c == 'p' {
                    Action::TogglePause
                } else if c == 'k' {
                    Action::ScrollUp
                } else if c == 'j' {
                    Action::ScrollDown
                } else {
                    Action::Nothing
                }
            },
            KeyCode::Tab => {
                if key.modifiers.shift {
                    Action::PrevPage
                } else {
                    Action::CycleFocus
                }
            },
            KeyCode::Up => Action::ScrollUp,
            KeyCode::Down => Action::ScrollDown,
            KeyCode::Left => Action::PrevPage,
            KeyCode::Right => Action::NextPage,
            KeyCode::Enter => Action::SelectNext,
            KeyCode::PageUp => Action::ScrollUp,
            KeyCode::PageDown => Action::ScrollDown,
            _ => Action::Nothing,
        }
    }
}

/// The keys and what each does, as the help shows them.
pub open spec fn keybinds() -> Seq<(Seq<char>, Seq<char>)> {
    seq![
        ("q"@, "Quit"@),
        ("r"@, "Refresh GitHub"@),
        ("1-4"@, "Switch pages"@),
        ("Tab"@, "Cycle focus"@),
        ("?/h"@, "Toggle help"@),
        ("p"@, "Pause animations"@),
        ("Up/k"@, "Scroll up"@),
        ("Dn/j"@, "Scroll down"@),
        ("L/R"@, "Prev/Next page"@),
    ]
}

/// The keys and what each does, as the help shows them.
pub fn keybind_help() -> (r: Vec<(&'static str, &'static str)>)
    ensures
        r@.len() == keybinds().len(),
        forall|i: int|
            0 <= i < r@.len() ==> (#[trigger] r@[i]).0@ == keybinds()[i].0 && r@[i].1@
                == keybinds()[i].1,
{
    let mut help: Vec<(&'static str, &'static str)> = Vec::new();
    help.push(("q", "Quit"));
    help.push(("r", "Refresh GitHub"));
    help.push(("1-4", "Switch pages"));
    help.push(("Tab", "Cycle focus"));
    help.push(("?/h", "Toggle help"));
    help.push(("p", "Pause animations"));
    help.push(("Up/k", "Scroll up"));
    help.push(("Dn/j", "Scroll down"));
    help.push(("L/R", "Prev/Next page"));
    help
}

} // verus!
