//! The keys the engine models, and their mapping from physical key codes.

use vstd::prelude::*;

use crate::native::NativeKeyCode;

verus! {

/// A key the engine tracks: arrows, space, escape, enter, backspace, tab,
/// the letters `A`..`Z` and the digits `0`..`9`.
#[derive(Debug, Clone, Copy, PartialEq, Eq, Hash, Structural)]
pub enum KeyCode {
    ArrowUp,
    ArrowDown,
    ArrowLeft,
    ArrowRight,
    Space,
    Escape,
    Enter,
    Backspace,
    Tab,
    A,
    B,
    C,
    D,
    E,
    F,
    G,
    H,
    I,
    J,
    K,
    L,
    M,
    N,
    O,
    P,
    Q,
    R,
    S,
    T,
    U,
    V,
    W,
    X,
    Y,
    Z,
    Key0,
    Key1,
    Key2,
    Key3,
    Key4,
    Key5,
    Key6,
    Key7,
    Key8,
    Key9,
}

impl KeyCode {
    /// The physical key that reports this key.
    pub open spec fn native(self) -> NativeKeyCode {
        match self {
            KeyCode::ArrowUp => NativeKeyCode::ArrowUp,
            KeyCode::ArrowDown => NativeKeyCode::ArrowDown,
            KeyCode::ArrowLeft => NativeKeyCode::ArrowLeft,
            KeyCode::ArrowRight => NativeKeyCode::ArrowRight,
            KeyCode::Space => NativeKeyCode::Space,
            KeyCode::Escape => NativeKeyCode::Escape,
            KeyCode::Enter => NativeKeyCode::Enter,
            KeyCode::Backspace => NativeKeyCode::Backspace,
            KeyCode::Tab => NativeKeyCode::Tab,
            KeyCode::A => NativeKeyCode::KeyA,
            KeyCode::B => NativeKeyCode::KeyB,
            KeyCode::C => NativeKeyCode::KeyC,
            KeyCode::D => NativeKeyCode::KeyD,
            KeyCode::E => NativeKeyCode::KeyE,
            KeyCode::F => NativeKeyCode::KeyF,
            KeyCode::G => NativeKeyCode::KeyG,
            KeyCode::H => NativeKeyCode::KeyH,
            KeyCode::I => NativeKeyCode::KeyI,
            KeyCode::J => NativeKeyCode::KeyJ,
            KeyCode::K => NativeKeyCode::KeyK,
            KeyCode::L => NativeKeyCode::KeyL,
            KeyCode::M => NativeKeyCode::KeyM,
            KeyCode::N => NativeKeyCode::KeyN,
            KeyCode::O => NativeKeyCode::KeyO,
            KeyCode::P => NativeKeyCode::KeyP,
            KeyCode::Q => NativeKeyCode::KeyQ,
            KeyCode::R => NativeKeyCode::KeyR,
            KeyCode::S => NativeKeyCode::KeyS,
            KeyCode::T => NativeKeyCode::KeyT,
            KeyCode::U => NativeKeyCode::KeyU,
            KeyCode::V => NativeKeyCode::KeyV,
            KeyCode::W => NativeKeyCode::KeyW,
            KeyCode::X => NativeKeyCode::KeyX,
            KeyCode::Y => NativeKeyCode::KeyY,
            KeyCode::Z => NativeKeyCode::KeyZ,
            KeyCode::Key0 => NativeKeyCode::Digit0,
            KeyCode::Key1 => NativeKeyCode::Digit1,
            KeyCode::Key2 => NativeKeyCode::Digit2,
            KeyCode::Key3 => NativeKeyCode::Digit3,
            KeyCode::Key4 => NativeKeyCode::Digit4,
            KeyCode::Key5 => NativeKeyCode::Digit5,
            KeyCode::Key6 => NativeKeyCode::Digit6,
            KeyCode::Key7 => NativeKeyCode::Digit7,
            KeyCode::Key8 => NativeKeyCode::Digit8,
            KeyCode::Key9 => NativeKeyCode::Digit9,
        }
    }

    /// Maps a physical key to its [`KeyCode`]; returns `None` for keys
    /// outside the engine's supported set.
    pub fn from_native(code: NativeKeyCode) -> (key: Option<KeyCode>)
        ensures
            match key {
                Some(k) => k.native() == code,
                None => forall|k: KeyCode| #[trigger] k.native() != code,
            },
    {
        match code {
            NativeKeyCode::ArrowUp => Some(KeyCode::ArrowUp),
            NativeKeyCode::ArrowDown => Some(KeyCode::ArrowDown),
            NativeKeyCode::ArrowLeft => Some(KeyCode::ArrowLeft),
            NativeKeyCode::ArrowRight => Some(KeyCode::ArrowRight),
            NativeKeyCode::Space => Some(KeyCode::Space),
            NativeKeyCode::Escape => Some(KeyCode::Escape),
            NativeKeyCode::Enter => Some(KeyCode::Enter),
            NativeKeyCode::Backspace => Some(KeyCode::Backspace),
            NativeKeyCode::Tab => Some(KeyCode::Tab),
            NativeKeyCode::KeyA => Some(KeyCode::A),
            NativeKeyCode::KeyB => Some(KeyCode::B),
            NativeKeyCode::KeyC => Some(KeyCode::C),
            NativeKeyCode::KeyD => Some(KeyCode::D),
            NativeKeyCode::KeyE => Some(KeyCode::E),
            NativeKeyCode::KeyF => Some(KeyCode::F),
            NativeKeyCode::KeyG => Some(KeyCode::G),
            NativeKeyCode::KeyH => Some(KeyCode::H),
            NativeKeyCode::KeyI => Some(KeyCode::I),
            NativeKeyCode::KeyJ => Some(KeyCode::J),
            NativeKeyCode::KeyK => Some(KeyCode::K),
            NativeKeyCode::KeyL => Some(KeyCode::L),
            NativeKeyCode::KeyM => Some(KeyCode::M),
            NativeKeyCode::KeyN => Some(KeyCode::N),
            NativeKeyCode::KeyO => Some(KeyCode::O),
            NativeKeyCode::KeyP => Some(KeyCode::P),
            NativeKeyCode::KeyQ => Some(KeyCode::Q),
            NativeKeyCode::KeyR => Some(KeyCode::R),
            NativeKeyCode::KeyS => Some(KeyCode::S),
            NativeKeyCode::KeyT => Some(KeyCode::T),
            NativeKeyCode::KeyU => Some(KeyCode::U),
            NativeKeyCode::KeyV => Some(KeyCode::V),
            NativeKeyCode::KeyW => Some(KeyCode::W),
            NativeKeyCode::KeyX => Some(KeyCode::X),
            NativeKeyCode::KeyY => Some(KeyCode::Y),
            NativeKeyCode::KeyZ => Some(KeyCode::Z),
            NativeKeyCode::Digit0 => Some(KeyCode::Key0),
            NativeKeyCode::Digit1 => Some(KeyCode::Key1),
            NativeKeyCode::Digit2 => Some(KeyCode::Key2),
            NativeKeyCode::Digit3 => Some(KeyCode::Key3),
            NativeKeyCode::Digit4 => Some(KeyCode::Key4),
            NativeKeyCode::Digit5 => Some(KeyCode::Key5),
            NativeKeyCode::Digit6 => Some(KeyCode::Key6),
            NativeKeyCode::Digit7 => Some(KeyCode::Key7),
            NativeKeyCode::Digit8 => Some(KeyCode::Key8),
            NativeKeyCode::Digit9 => Some(KeyCode::Key9),
            _ => None,
        }
    }
}

/// Distinct engine keys come from distinct physical keys, so a physical key
/// names at most one engine key.
pub proof fn lemma_native_injective(a: KeyCode, b: KeyCode)
    ensures
        a.native() == b.native() ==> a == b,
{
}

} // verus!
