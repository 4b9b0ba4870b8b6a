use pet2d::{KeyCode, NativeKeyCode};

#[test]
fn maps_arrows_space_and_escape() {
    let cases = [
        (NativeKeyCode::ArrowUp, KeyCode::ArrowUp),
        (NativeKeyCode::ArrowDown, KeyCode::ArrowDown),
        (NativeKeyCode::ArrowLeft, KeyCode::ArrowLeft),
        (NativeKeyCode::ArrowRight, KeyCode::ArrowRight),
        (NativeKeyCode::Space, KeyCode::Space),
        (NativeKeyCode::Escape, KeyCode::Escape),
    ];
    for (native, expected) in cases {
        assert_eq!(KeyCode::from_native(native), Some(expected));
    }
}

#[test]
fn maps_enter_backspace_and_tab() {
    let cases = [
        (NativeKeyCode::Enter, KeyCode::Enter),
        (NativeKeyCode::Backspace, KeyCode::Backspace),
        (NativeKeyCode::Tab, KeyCode::Tab),
    ];
    for (native, expected) in cases {
        assert_eq!(KeyCode::from_native(native), Some(expected));
    }
}

#[test]
fn maps_all_letters_a_to_z() {
    let natives = [
        NativeKeyCode::KeyA,
        NativeKeyCode::KeyB,
        NativeKeyCode::KeyC,
        NativeKeyCode::KeyD,
        NativeKeyCode::KeyE,
        NativeKeyCode::KeyF,
        NativeKeyCode::KeyG,
        NativeKeyCode::KeyH,
        NativeKeyCode::KeyI,
        NativeKeyCode::KeyJ,
        NativeKeyCode::KeyK,
        NativeKeyCode::KeyL,
        NativeKeyCode::KeyM,
        NativeKeyCode::KeyN,
        NativeKeyCode::KeyO,
        NativeKeyCode::KeyP,
        NativeKeyCode::KeyQ,
        NativeKeyCode::KeyR,
        NativeKeyCode::KeyS,
        NativeKeyCode::KeyT,
        NativeKeyCode::KeyU,
        NativeKeyCode::KeyV,
        NativeKeyCode::KeyW,
        NativeKeyCode::KeyX,
        NativeKeyCode::KeyY,
        NativeKeyCode::KeyZ,
    ];
    let letters = [
        KeyCode::A,
        KeyCode::B,
        KeyCode::C,
        KeyCode::D,
        KeyCode::E,
        KeyCode::F,
        KeyCode::G,
        KeyCode::H,
        KeyCode::I,
        KeyCode::J,
        KeyCode::K,
        KeyCode::L,
        KeyCode::M,
        KeyCode::N,
        KeyCode::O,
        KeyCode::P,
        KeyCode::Q,
        KeyCode::R,
        KeyCode::S,
        KeyCode::T,
        KeyCode::U,
        KeyCode::V,
        KeyCode::W,
        KeyCode::X,
        KeyCode::Y,
        KeyCode::Z,
    ];
    for (native, letter) in natives.into_iter().zip(letters) {
        assert_eq!(KeyCode::from_native(native), Some(letter));
    }
}

#[test]
fn maps_all_digits_0_to_9() {
    let natives = [
        NativeKeyCode::Digit0,
        NativeKeyCode::Digit1,
        NativeKeyCode::Digit2,
        NativeKeyCode::Digit3,
        NativeKeyCode::Digit4,
        NativeKeyCode::Digit5,
        NativeKeyCode::Digit6,
        NativeKeyCode::Digit7,
        NativeKeyCode::Digit8,
        NativeKeyCode::Digit9,
    ];
    let digits = [
        KeyCode::Key0,
        KeyCode::Key1,
        KeyCode::Key2,
        KeyCode::Key3,
        KeyCode::Key4,
        KeyCode::Key5,
        KeyCode::Key6,
        KeyCode::Key7,
        KeyCode::Key8,
        KeyCode::Key9,
    ];
    for (native, digit) in natives.into_iter().zip(digits) {
        assert_eq!(KeyCode::from_native(native), Some(digit));
    }
}

#[test]
fn unsupported_keys_return_none() {
    assert_eq!(KeyCode::from_native(NativeKeyCode::F1), None);
    assert_eq!(KeyCode::from_native(NativeKeyCode::ShiftLeft), None);
}

#[test]
fn numpad_digits_are_not_the_top_row_digits() {
    assert_eq!(KeyCode::from_native(NativeKeyCode::Numpad0), None);
    assert_eq!(KeyCode::from_native(NativeKeyCode::NumpadEnter), None);
    assert_eq!(KeyCode::from_native(NativeKeyCode::Digit0), Some(KeyCode::Key0));
}
