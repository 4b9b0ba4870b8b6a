use pet2d::{MouseButton, NativeMouseButton};

#[test]
fn maps_left_right_and_middle() {
    let cases = [
        (NativeMouseButton::Left, MouseButton::Left),
        (NativeMouseButton::Right, MouseButton::Right),
        (NativeMouseButton::Middle, MouseButton::Middle),
    ];
    for (native, expected) in cases {
        assert_eq!(MouseButton::from_native(native), Some(expected));
    }
}

#[test]
fn unsupported_buttons_return_none() {
    assert_eq!(MouseButton::from_native(NativeMouseButton::Back), None);
    assert_eq!(MouseButton::from_native(NativeMouseButton::Other(4)), None);
}

#[test]
fn forward_button_is_not_modelled() {
    assert_eq!(MouseButton::from_native(NativeMouseButton::Forward), None);
}
