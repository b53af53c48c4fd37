use vstd::prelude::*;

verus! {

/// The keyboard events the inspector reacts to. The terminal backend maps
/// its own event type onto this one at the edge; every other key arrives as
/// `Other` and is ignored.
#[derive(Clone, Copy, PartialEq, Eq, Structural)]
pub enum Key {
    Char(char),
    Enter,
    Backspace,
    Left,
    Right,
    Esc,
    Tab,
    BackTab,
    Up,
    Down,
    Other,
}

/// What the input controller forwards to the active format viewer: a key
/// pressed while the viewer owns the keyboard, or the order to give up or
/// take back the focus when input mode changes.
#[derive(Clone, Copy, PartialEq, Eq, Structural)]
pub enum InteractiveCommand {
    Key(Key),
    Focus,
    Unfocus,
}

} // verus!
