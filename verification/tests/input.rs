use pet2d::{
    is_key_down, is_key_pressed, is_mouse_button_down, Context, ElementState, InputState, KeyCode,
    KeySet, MouseButton, NativeKeyCode, NativeMouseButton,
};

#[test]
fn held_key_stays_down_until_released() {
    let mut input = InputState::default();
    input.on_key(KeyCode::ArrowRight, ElementState::Pressed);
    assert!(input.keys_down.contains(&KeyCode::ArrowRight));

    // OS key repeat sends more Pressed events while held; state must not flip
    input.on_key(KeyCode::ArrowRight, ElementState::Pressed);
    assert!(input.keys_down.contains(&KeyCode::ArrowRight));

    input.on_key(KeyCode::ArrowRight, ElementState::Released);
    assert!(!input.keys_down.contains(&KeyCode::ArrowRight));
}

#[test]
fn press_is_a_one_frame_event_cleared_by_begin_frame() {
    let mut input = InputState::default();
    input.on_key(KeyCode::Space, ElementState::Pressed);
    assert!(input.keys_pressed.contains(&KeyCode::Space));

    input.begin_frame();
    assert!(input.keys_pressed.is_empty());
    // keys_down persists while held; only the one-shot event is cleared
    assert!(input.keys_down.contains(&KeyCode::Space));
}

#[test]
fn releasing_a_key_drops_it_from_pressed() {
    let mut input = InputState::default();
    input.on_key(KeyCode::A, ElementState::Pressed);
    input.on_key(KeyCode::A, ElementState::Released);
    assert!(input.keys_pressed.is_empty());
}

#[test]
fn mouse_button_tracks_press_and_release() {
    let mut input = InputState::default();
    input.on_mouse_button(MouseButton::Left, ElementState::Pressed);
    assert!(input.mouse_buttons_down.contains(&MouseButton::Left));
    input.on_mouse_button(MouseButton::Left, ElementState::Released);
    assert!(input.mouse_buttons_down.is_empty());
}

#[test]
fn repeated_press_is_not_reported_again_after_a_frame() {
    let mut input = InputState::default();
    input.on_key(KeyCode::W, ElementState::Pressed);
    input.begin_frame();
    input.on_key(KeyCode::W, ElementState::Pressed);
    assert!(!input.keys_pressed.contains(&KeyCode::W));
    assert!(input.keys_down.contains(&KeyCode::W));
}

#[test]
fn key_set_insert_reports_whether_the_key_was_new() {
    let mut set = KeySet::new();
    assert!(set.is_empty());
    assert!(set.insert(KeyCode::B));
    assert!(!set.insert(KeyCode::B));
    assert!(set.contains(&KeyCode::B));
    assert!(!set.contains(&KeyCode::C));
    assert!(set.remove(&KeyCode::B));
    assert!(!set.remove(&KeyCode::B));
    assert!(set.is_empty());
}

#[test]
fn key_set_removes_from_the_middle() {
    let mut set = KeySet::new();
    set.insert(KeyCode::A);
    set.insert(KeyCode::B);
    set.insert(KeyCode::C);
    assert!(set.remove(&KeyCode::B));
    assert!(set.contains(&KeyCode::A));
    assert!(!set.contains(&KeyCode::B));
    assert!(set.contains(&KeyCode::C));
    set.clear();
    assert!(set.is_empty());
}

#[test]
fn context_routes_native_events_to_input() {
    let mut ctx = Context::new();
    ctx.on_keyboard_input(NativeKeyCode::KeyA, ElementState::Pressed);
    ctx.on_mouse_input(NativeMouseButton::Right, ElementState::Pressed);
    assert!(is_key_down(&ctx, KeyCode::A));
    assert!(is_key_pressed(&ctx, KeyCode::A));
    assert!(is_mouse_button_down(&ctx, MouseButton::Right));
    assert!(!is_mouse_button_down(&ctx, MouseButton::Left));

    ctx.finish_frame();
    assert_eq!(ctx.frame, 1);
    assert!(is_key_down(&ctx, KeyCode::A));
    assert!(!is_key_pressed(&ctx, KeyCode::A));

    ctx.on_keyboard_input(NativeKeyCode::KeyA, ElementState::Released);
    ctx.on_mouse_input(NativeMouseButton::Right, ElementState::Released);
    assert!(!is_key_down(&ctx, KeyCode::A));
    assert!(!is_mouse_button_down(&ctx, MouseButton::Right));
}

#[test]
fn context_ignores_keys_and_buttons_it_does_not_model() {
    let mut ctx = Context::new();
    ctx.on_keyboard_input(NativeKeyCode::F1, ElementState::Pressed);
    ctx.on_mouse_input(NativeMouseButton::Other(4), ElementState::Pressed);
    assert!(ctx.input.keys_down.is_empty());
    assert!(ctx.input.keys_pressed.is_empty());
    assert!(ctx.input.mouse_buttons_down.is_empty());
    assert_eq!(ctx.frame, 0);
}

#[test]
fn pet_windows_stay_on_top_only_when_asked() {
    let mut pet = pet2d::PetWindowOptions {
        always_on_top: true,
        transparent: true,
        click_through: false,
        decorations: false,
    };
    assert_eq!(pet.window_level(), pet2d::WindowLevel::AlwaysOnTop);
    pet.always_on_top = false;
    assert_eq!(pet.window_level(), pet2d::WindowLevel::Normal);
}
