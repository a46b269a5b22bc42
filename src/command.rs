use vstd::prelude::*;

verus! {

/// A logical instruction derived from raw keyboard input.
#[derive(Clone, Copy, Debug, PartialEq, Eq, Structural)]
pub enum Command {
    /// Show the overlay.
    Activate,
    /// Hide the overlay.
    Deactivate,
}

/// The physical keys that the hotkeys are made of; every other key is `Other`.
#[derive(Clone, Copy, Debug, PartialEq, Eq, Structural)]
pub enum KeyCode {
    KeyL,
    Escape,
    ShiftLeft,
    ShiftRight,
    Other,
}

/// A key press together with the modifier flags in force when it came.
#[derive(Clone, Copy, Debug, PartialEq, Eq, Structural)]
pub struct KeyEvent {
    pub key: KeyCode,
    pub shift: bool,
}

/// The fixed hotkey table: Shift+L activates, Escape deactivates.
pub open spec fn command_of(e: KeyEvent) -> Option<Command> {
    match e.key {
        KeyCode::KeyL => if e.shift {
            Some(Command::Activate)
        } else {
            None
        },
        KeyCode::Escape => Some(Command::Deactivate),
        _ => None,
    }
}

/// The command that a key press stands for, if any.
pub fn command_for(e: &KeyEvent) -> (r: Option<Command>)
    ensures
        r == command_of(*e),
{
    match e.key {
        KeyCode::KeyL => {
            if e.shift {
                Some(Command::Activate)
            } else {
                None
            }
        },
        KeyCode::Escape => Some(Command::Deactivate),
        _ => None,
    }
}

} // verus!
