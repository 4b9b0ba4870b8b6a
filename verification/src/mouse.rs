//! The mouse buttons the engine models, and their mapping from the window
//! system's buttons.

use vstd::prelude::*;

use crate::native::NativeMouseButton;

verus! {

/// A mouse button the engine tracks.
#[derive(Debug, Clone, Copy, PartialEq, Eq, Hash, Structural)]
pub enum MouseButton {
    Left,
    Right,
    Middle,
}

impl MouseButton {
    /// The window-system button that reports this button.
    pub open spec fn native(self) -> NativeMouseButton {
        match self {
            MouseButton::Left => NativeMouseButton::Left,
            MouseButton::Right => NativeMouseButton::Right,
            MouseButton::Middle => NativeMouseButton::Middle,
        }
    }

    /// Maps a window-system mouse button; returns `None` for buttons the
    /// engine does not model (back, forward, extra buttons).
    pub fn from_native(button: NativeMouseButton) -> (result: Option<MouseButton>)
        ensures
            match result {
                Some(b) => b.native() == button,
                None => forall|b: MouseButton| #[trigger] b.native() != button,
            },
    {
        match button {
            NativeMouseButton::Left => Some(MouseButton::Left),
            NativeMouseButton::Right => Some(MouseButton::Right),
            NativeMouseButton::Middle => Some(MouseButton::Middle),
            _ => None,
        }
    }
}

/// Distinct engine buttons come from distinct window-system buttons.
pub proof fn lemma_native_injective(a: MouseButton, b: MouseButton)
    ensures
        a.native() == b.native() ==> a == b,
{
}

} // verus!
