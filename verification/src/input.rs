//! The keys and gamepad buttons the game binds actions to.
use vstd::prelude::*;

verus! {

#[derive(PartialEq, Eq, Structural, Clone, Copy, Debug)]
pub enum InputButton {
    DPadLeft,
    DPadRight,
    LeftTrigger,
    RightTrigger,
    East,
    KeyA,
    KeyD,
    KeyE,
    ArrowLeft,
    ArrowRight,
    Space,
    Enter,
    NumpadEnter,
    Delete,
    Backspace,
    NumpadBackspace,
}

/// The mouse buttons of a click.
#[derive(PartialEq, Eq, Structural, Clone, Copy, Debug)]
pub enum PointerButton {
    Primary,
    Secondary,
    Middle,
}

} // verus!
