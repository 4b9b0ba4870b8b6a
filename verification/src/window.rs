//! Window options for desktop pets.

use vstd::prelude::*;

verus! {

/// Options describing a desktop pet window: a floating character that
/// stays on top, shows through where it is transparent, and may let clicks
/// fall through to the windows behind it.
#[derive(Clone, Copy, Debug)]
pub struct PetWindowOptions {
    pub always_on_top: bool,
    pub transparent: bool,
    pub click_through: bool,
    pub decorations: bool,
}

/// Where a window stacks among the other windows of the desktop.
#[derive(Clone, Copy, Debug, PartialEq, Eq)]
pub enum WindowLevel {
    /// Stacks like any application window.
    Normal,
    /// Stays above every normal window.
    AlwaysOnTop,
}

impl PetWindowOptions {
    /// The stacking level of the pet window: on top of the other windows
    /// when asked to stay on top, a normal window otherwise.
    pub fn window_level(&self) -> (level: WindowLevel)
        ensures
            level == if self.always_on_top {
                WindowLevel::AlwaysOnTop
            } else {
                WindowLevel::Normal
            },
    {
        if self.always_on_top {
            WindowLevel::AlwaysOnTop
        } else {
            WindowLevel::Normal
        }
    }
}

} // verus!
