//! Plain model of the input surface: structured key events (key code plus
//! modifier flags) and the periodic tick, merged into one event stream.

use vstd::prelude::*;

verus! {

/// The key codes the dashboard reacts to; anything else is `Other`.
#[derive(Clone, Copy, Debug, PartialEq, Eq, Structural)]
pub enum KeyCode {
    Esc,
    Enter,
    Left,
    Right,
    Up,
    Down,
    Tab,
    BackTab,
    Char(char),
    Other,
}

/// One keyboard event: a key code and the modifiers held with it.
#[derive(Clone, Copy, Debug, PartialEq, Eq, Structural)]
pub struct KeyEvent {
    pub code: KeyCode,
    pub ctrl: bool,
    pub alt: bool,
    pub shift: bool,
}

impl KeyEvent {
    /// A key pressed without any modifier.
    pub fn plain(code: KeyCode) -> (r: KeyEvent)
        ensures
            r == (KeyEvent { code, ctrl: false, alt: false, shift: false }),
    {
        KeyEvent { code, ctrl: false, alt: false, shift: false }
    }

    /// A key pressed with control alone held.
    pub fn with_ctrl(code: KeyCode) -> (r: KeyEvent)
        ensures
            r == (KeyEvent { code, ctrl: true, alt: false, shift: false }),
    {
        KeyEvent { code, ctrl: true, alt: false, shift: false }
    }

    /// Control is the only modifier held.
    pub open spec fn ctrl_only(self) -> bool {
        self.ctrl && !self.alt && !self.shift
    }
}

/// One event of the merged stream the render loop consumes.
#[derive(Clone, Copy, Debug, PartialEq, Eq, Structural)]
pub enum Event {
    Key(KeyEvent),
    Tick,
}

} // verus!
