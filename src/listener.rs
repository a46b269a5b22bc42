use vstd::prelude::*;

use crate::command::{command_for, command_of, Command, KeyCode, KeyEvent};

verus! {

/// Whether a raw keyboard event is a key going down or coming up.
#[derive(Clone, Copy, Debug, PartialEq, Eq, Structural)]
pub enum KeyMotion {
    Press,
    Release,
}

/// Mathematical model of a listener.
pub struct ListenerModel {
    pub shift_left: bool,
    pub shift_right: bool,
    /// False once a command could not be delivered.
    pub alive: bool,
}

/// The shift flags after a raw event.
pub open spec fn shifts_after(s: ListenerModel, motion: KeyMotion, key: KeyCode) -> ListenerModel {
    let down = motion == KeyMotion::Press;
    match key {
        KeyCode::ShiftLeft => ListenerModel { shift_left: down, ..s },
        KeyCode::ShiftRight => ListenerModel { shift_right: down, ..s },
        _ => s,
    }
}

/// The command that a raw event yields in state `s` (taken after the
/// event's own effect on the shift flags).
pub open spec fn emitted(s: ListenerModel, motion: KeyMotion, key: KeyCode) -> Option<Command> {
    if s.alive && motion == KeyMotion::Press {
        command_of(KeyEvent { key, shift: s.shift_left || s.shift_right })
    } else {
        None
    }
}

/// Turns the system-wide stream of raw key events into commands. It runs on
/// the hook's thread and never touches the window.
pub struct Listener {
    shift_left: bool,
    shift_right: bool,
    alive: bool,
}

impl View for Listener {
    type V = ListenerModel;

    closed spec fn view(&self) -> ListenerModel {
        ListenerModel {
            shift_left: self.shift_left,
            shift_right: self.shift_right,
            alive: self.alive,
        }
    }
}

impl Listener {
    /// A live listener with no modifier held.
    pub fn new() -> (r: Listener)
        ensures
            r@ == (ListenerModel { shift_left: false, shift_right: false, alive: true }),
    {
        Listener { shift_left: false, shift_right: false, alive: true }
    }

    /// Records one raw event and returns the command to send, if any.
    pub fn observe(&mut self, motion: KeyMotion, key: KeyCode) -> (r: Option<Command>)
        ensures
            final(self)@ == shifts_after(old(self)@, motion, key),
            r == emitted(final(self)@, motion, key),
    {
        let down = match motion {
            KeyMotion::Press => true,
            KeyMotion::Release => false,
        };
        match key {
            KeyCode::ShiftLeft => self.shift_left = down,
            KeyCode::ShiftRight => self.shift_right = down,
            _ => {},
        }
        if self.alive && down {
            command_for(&KeyEvent { key, shift: self.shift_left || self.shift_right })
        } else {
            None
        }
    }

    /// A send failed because the receiving side is gone: the listener stops
    /// emitting for good.
    pub fn send_failed(&mut self)
        ensures
            final(self)@ == (ListenerModel { alive: false, ..old(self)@ }),
    {
        self.alive = false;
    }

    pub fn is_alive(&self) -> (r: bool)
        ensures
            r == self@.alive,
    {
        self.alive
    }
}

} // verus!
