//! Classification of terminal input into the events the state machine acts
//! on.
//!
//! The terminal hands the driving program raw key events; the part of them
//! the explorer reads — the key code and whether control is held — comes
//! here as plain values, and is mapped to one of the discrete events of the
//! navigation state machine. Anything unrecognized (other keys, resizes,
//! mouse events) is classified as `Other` and ignored by every screen.

use vstd::prelude::*;

verus! {

/// The key codes the explorer distinguishes; every other key is `Other`.
#[derive(Clone, Copy, Debug, PartialEq, Eq)]
pub enum KeyCode {
    Up,
    Down,
    Enter,
    Esc,
    Char(char),
    Other,
}

/// One key press as the explorer sees it: the code and whether the control
/// modifier was held.
#[derive(Clone, Copy, Debug)]
pub struct KeyInput {
    pub code: KeyCode,
    pub ctrl: bool,
}

/// A discrete event driving the navigation state machine.
#[derive(Clone, Copy, Debug, PartialEq, Eq)]
pub enum UiEvent {
    /// The quit key `q` or the interrupt combination control-`c`.
    Quit,
    /// Arrow up or `k`.
    MoveUp,
    /// Arrow down or `j`.
    MoveDown,
    /// Enter: open the selected namespace.
    Activate,
    /// `?`: show or hide the help overlay.
    ToggleHelp,
    /// Escape: back out of a namespace view.
    Escape,
    /// Anything the explorer does not act on.
    Other,
}

/// The event a key press stands for. The quit key and the interrupt
/// combination win over every other reading of the same key.
pub open spec fn classify_spec(k: KeyInput) -> UiEvent {
    if k.code == KeyCode::Char('q') || (k.ctrl && k.code == KeyCode::Char('c')) {
        UiEvent::Quit
    } else {
        match k.code {
            KeyCode::Up => UiEvent::MoveUp,
            KeyCode::Down => UiEvent::MoveDown,
            KeyCode::Enter => UiEvent::Activate,
            KeyCode::Esc => UiEvent::Escape,
            KeyCode::Char(c) => if c == 'k' {
                UiEvent::MoveUp
            } else if c == 'j' {
                UiEvent::MoveDown
            } else if c == '?' {
                UiEvent::ToggleHelp
            } else {
                UiEvent::Other
            },
            KeyCode::Other => UiEvent::Other,
        }
    }
}

/// Maps one key press to the event it stands for.
pub fn classify_key(k: &KeyInput) -> (e: UiEvent)
    ensures
        e == classify_spec(*k),
{
    match k.code {
        KeyCode::Up => UiEvent::MoveUp,
        KeyCode::Down => UiEvent::MoveDown,
        KeyCode::Enter => UiEvent::Activate,
        KeyCode::Esc => UiEvent::Escape,
        KeyCode::Other => UiEvent::Other,
        KeyCode::Char(c) => {
            if c == 'q' {
                UiEvent::Quit
            } else if k.ctrl && c == 'c' {
                UiEvent::Quit
            } else if c == 'k' {
                UiEvent::MoveUp
            } else if c == 'j' {
                UiEvent::MoveDown
            } else if c == '?' {
                UiEvent::ToggleHelp
            } else {
                UiEvent::Other
            }
        },
    }
}

} // verus!
