//! Keyboard and mouse state, updated from window events and read by the
//! game once per frame.

use vstd::prelude::*;

use crate::context::Context;
use crate::keycode::KeyCode;
use crate::keyset::{ButtonSet, KeySet};
use crate::mouse::MouseButton;
use crate::native::ElementState;

verus! {

/// The keys held down after a key event.
pub open spec fn down_after_key(down: Set<KeyCode>, key: KeyCode, state: ElementState) -> Set<
    KeyCode,
> {
    match state {
        ElementState::Pressed => down.insert(key),
        ElementState::Released => down.remove(key),
    }
}

/// The keys pressed this frame after a key event: a press counts only when
/// the key was up (OS key repeat sends more presses while it is held), and a
/// release withdraws the press.
pub open spec fn pressed_after_key(
    down: Set<KeyCode>,
    pressed: Set<KeyCode>,
    key: KeyCode,
    state: ElementState,
) -> Set<KeyCode> {
    match state {
        ElementState::Pressed => if down.contains(key) {
            pressed
        } else {
            pressed.insert(key)
        },
        ElementState::Released => pressed.remove(key),
    }
}

/// The mouse buttons held down after a button event.
pub open spec fn buttons_after(
    buttons: Set<MouseButton>,
    button: MouseButton,
    state: ElementState,
) -> Set<MouseButton> {
    match state {
        ElementState::Pressed => buttons.insert(button),
        ElementState::Released => buttons.remove(button),
    }
}

/// Snapshot of keyboard and mouse-button state, updated from window events.
/// The game reads it through [`is_key_down`], [`is_key_pressed`] and
/// [`is_mouse_button_down`]; the fields are public for direct inspection.
pub struct InputState {
    /// Keys currently held down.
    pub keys_down: KeySet,
    /// Keys pressed since the previous frame; cleared by [`Self::begin_frame`].
    pub keys_pressed: KeySet,
    /// Mouse buttons currently held down.
    pub mouse_buttons_down: ButtonSet,
}

impl InputState {
    /// Every key reported as pressed this frame is also held down.
    pub open spec fn consistent(&self) -> bool {
        self.keys_pressed@.subset_of(self.keys_down@)
    }

    /// Records a key going down or up.
    pub fn on_key(&mut self, key: KeyCode, state: ElementState)
        ensures
            final(self).keys_down@ == down_after_key(old(self).keys_down@, key, state),
            final(self).keys_pressed@ == pressed_after_key(
                old(self).keys_down@,
                old(self).keys_pressed@,
                key,
                state,
            ),
            final(self).mouse_buttons_down@ == old(self).mouse_buttons_down@,
            old(self).consistent() ==> final(self).consistent(),
            (final(self).keys_down@, final(self).keys_pressed@) == key_step(
                (old(self).keys_down@, old(self).keys_pressed@),
                KeyEvent::Key(key, state),
            ),
            state is Pressed ==> final(self).keys_down@ == old(self).keys_down@.insert(key),
            state is Pressed && old(self).keys_down@.contains(key) ==> final(self).keys_pressed@
                == old(self).keys_pressed@,
            state is Pressed && !old(self).keys_down@.contains(key) ==> final(self).keys_pressed@
                == old(self).keys_pressed@.insert(key),
            state is Released ==> final(self).keys_down@ == old(self).keys_down@.remove(key),
            state is Released ==> final(self).keys_pressed@ == old(self).keys_pressed@.remove(key),
    {
        match state {
            ElementState::Pressed => {
                // insert() reports false on OS key repeat; pressed stays a
                // transition event, not a per-repeat one
                if self.keys_down.insert(key) {
                    self.keys_pressed.insert(key);
                }
            },
            ElementState::Released => {
                self.keys_down.remove(&key);
                self.keys_pressed.remove(&key);
            },
        }
    }

    /// Records a mouse button going down or up.
    pub fn on_mouse_button(&mut self, button: MouseButton, state: ElementState)
        ensures
            final(self).mouse_buttons_down@ == buttons_after(
                old(self).mouse_buttons_down@,
                button,
                state,
            ),
            state is Pressed ==> final(self).mouse_buttons_down@ == old(
                self,
            ).mouse_buttons_down@.insert(button),
            state is Released ==> final(self).mouse_buttons_down@ == old(
                self,
            ).mouse_buttons_down@.remove(button),
            final(self).keys_down@ == old(self).keys_down@,
            final(self).keys_pressed@ == old(self).keys_pressed@,
    {
        match state {
            ElementState::Pressed => {
                self.mouse_buttons_down.insert(button);
            },
            ElementState::Released => {
                self.mouse_buttons_down.remove(&button);
            },
        }
    }

    /// Clears the one-frame events so [`is_key_pressed`] reports each press
    /// during a single frame; held keys and buttons stay as they are.
    pub fn begin_frame(&mut self)
        ensures
            final(self).keys_pressed@ == Set::<KeyCode>::empty(),
            final(self).keys_down@ == old(self).keys_down@,
            final(self).mouse_buttons_down@ == old(self).mouse_buttons_down@,
            final(self).consistent(),
            (final(self).keys_down@, final(self).keys_pressed@) == key_step(
                (old(self).keys_down@, old(self).keys_pressed@),
                KeyEvent::FrameEnd,
            ),
    {
        self.keys_pressed.clear();
    }
}

impl Default for InputState {
    fn default() -> (input: Self)
        ensures
            input.keys_down@ == Set::<KeyCode>::empty(),
            input.keys_pressed@ == Set::<KeyCode>::empty(),
            input.mouse_buttons_down@ == Set::<MouseButton>::empty(),
            input.consistent(),
    {
        InputState {
            keys_down: KeySet::new(),
            keys_pressed: KeySet::new(),
            mouse_buttons_down: ButtonSet::new(),
        }
    }
}

/// Returns whether `key` is currently held down.
pub fn is_key_down(ctx: &Context, key: KeyCode) -> (down: bool)
    ensures
        down == ctx.input.keys_down@.contains(key),
{
    ctx.input.keys_down.contains(&key)
}

/// Returns whether `key` was pressed since the previous frame; true for
/// exactly one frame per press.
pub fn is_key_pressed(ctx: &Context, key: KeyCode) -> (pressed: bool)
    ensures
        pressed == ctx.input.keys_pressed@.contains(key),
{
    ctx.input.keys_pressed.contains(&key)
}

/// Returns whether `button` is currently held down.
pub fn is_mouse_button_down(ctx: &Context, button: MouseButton) -> (down: bool)
    ensures
        down == ctx.input.mouse_buttons_down@.contains(button),
{
    ctx.input.mouse_buttons_down.contains(&button)
}

/// Every key event keeps the pressed keys among the held keys.
pub proof fn lemma_key_event_keeps_pressed_within_down(
    down: Set<KeyCode>,
    pressed: Set<KeyCode>,
    key: KeyCode,
    state: ElementState,
)
    requires
        pressed.subset_of(down),
    ensures
        pressed_after_key(down, pressed, key, state).subset_of(down_after_key(down, key, state)),
{
}

/// A press of a key that is already held (OS key repeat) changes nothing:
/// the key stays down and is not reported as pressed again.
pub proof fn lemma_repeated_press_changes_nothing(
    down: Set<KeyCode>,
    pressed: Set<KeyCode>,
    key: KeyCode,
)
    requires
        down.contains(key),
    ensures
        down_after_key(down, key, ElementState::Pressed) == down,
        pressed_after_key(down, pressed, key, ElementState::Pressed) == pressed,
{
    assert(down.insert(key) =~= down);
}

/// A press of a key that was up makes it both held and pressed; clearing the
/// frame's events then withdraws the press while the key stays held.
pub proof fn lemma_press_lasts_one_frame(down: Set<KeyCode>, pressed: Set<KeyCode>, key: KeyCode)
    requires
        !down.contains(key),
    ensures
        down_after_key(down, key, ElementState::Pressed).contains(key),
        pressed_after_key(down, pressed, key, ElementState::Pressed).contains(key),
        key_step(
            key_step((down, pressed), KeyEvent::Key(key, ElementState::Pressed)),
            KeyEvent::FrameEnd,
        ).0.contains(key),
        !key_step(
            key_step((down, pressed), KeyEvent::Key(key, ElementState::Pressed)),
            KeyEvent::FrameEnd,
        ).1.contains(key),
{
}

/// Releasing a key drops it from both the held and the pressed keys, whatever
/// came before.
pub proof fn lemma_release_drops_key(down: Set<KeyCode>, pressed: Set<KeyCode>, key: KeyCode)
    ensures
        !down_after_key(down, key, ElementState::Released).contains(key),
        !pressed_after_key(down, pressed, key, ElementState::Released).contains(key),
{
}

/// What the key state sees between two game ticks: a key going down or up,
/// or the end of a presented frame.
pub enum KeyEvent {
    Key(KeyCode, ElementState),
    FrameEnd,
}

/// The (held, pressed) keys after one event.
pub open spec fn key_step(state: (Set<KeyCode>, Set<KeyCode>), event: KeyEvent) -> (
    Set<KeyCode>,
    Set<KeyCode>,
) {
    match event {
        KeyEvent::Key(key, s) => (
            down_after_key(state.0, key, s),
            pressed_after_key(state.0, state.1, key, s),
        ),
        KeyEvent::FrameEnd => (state.0, Set::empty()),
    }
}

/// The (held, pressed) keys after a sequence of events.
pub open spec fn key_run(state: (Set<KeyCode>, Set<KeyCode>), events: Seq<KeyEvent>) -> (
    Set<KeyCode>,
    Set<KeyCode>,
)
    decreases events.len(),
{
    if events.len() == 0 {
        state
    } else {
        key_step(key_run(state, events.drop_last()), events.last())
    }
}

/// Running two sequences one after the other is running their concatenation.
pub proof fn lemma_key_run_append(
    state: (Set<KeyCode>, Set<KeyCode>),
    a: Seq<KeyEvent>,
    b: Seq<KeyEvent>,
)
    ensures
        key_run(state, a + b) == key_run(key_run(state, a), b),
    decreases b.len(),
{
    if b.len() == 0 {
        assert(a + b =~= a);
    } else {
        assert((a + b).drop_last() =~= a + b.drop_last());
        assert((a + b).last() == b.last());
        lemma_key_run_append(state, a, b.drop_last());
    }
}

/// Events that neither end the frame nor release `key` keep a pressed `key`
/// pressed.
proof fn lemma_press_survives_within_frame(
    state: (Set<KeyCode>, Set<KeyCode>),
    key: KeyCode,
    events: Seq<KeyEvent>,
)
    requires
        state.1.contains(key),
        forall|i: int|
            0 <= i < events.len() ==> !(#[trigger] events[i] is FrameEnd) && events[i]
                != KeyEvent::Key(key, ElementState::Released),
    ensures
        key_run(state, events).1.contains(key),
    decreases events.len(),
{
    if events.len() > 0 {
        lemma_press_survives_within_frame(state, key, events.drop_last());
        assert(events.last() == events[events.len() - 1]);
    }
}

/// Events that do not release a held, unpressed `key` keep it held and
/// unpressed: presses of a held key are repeats and do not count.
proof fn lemma_held_key_stays_unpressed(
    state: (Set<KeyCode>, Set<KeyCode>),
    key: KeyCode,
    events: Seq<KeyEvent>,
)
    requires
        state.0.contains(key),
        !state.1.contains(key),
        forall|i: int|
            0 <= i < events.len() ==> #[trigger] events[i] != KeyEvent::Key(
                key,
                ElementState::Released,
            ),
    ensures
        key_run(state, events).0.contains(key),
        !key_run(state, events).1.contains(key),
    decreases events.len(),
{
    if events.len() > 0 {
        lemma_held_key_stays_unpressed(state, key, events.drop_last());
        assert(events.last() == events[events.len() - 1]);
    }
}

/// A press is reported for exactly the frame it arrives in: when `key` is up
/// and goes down, it reads as pressed until the frame ends, provided the
/// frame brings no release of it; after the frame ends it reads as held and
/// not pressed for as long as it is not released, whatever else happens,
/// OS key repeats included.
pub proof fn lemma_press_reported_for_exactly_its_frame(
    state: (Set<KeyCode>, Set<KeyCode>),
    key: KeyCode,
    before: Seq<KeyEvent>,
    during: Seq<KeyEvent>,
    after: Seq<KeyEvent>,
)
    requires
        !key_run(state, before).0.contains(key),
        forall|i: int|
            0 <= i < during.len() ==> !(#[trigger] during[i] is FrameEnd) && during[i]
                != KeyEvent::Key(key, ElementState::Released),
        forall|i: int|
            0 <= i < after.len() ==> #[trigger] after[i] != KeyEvent::Key(
                key,
                ElementState::Released,
            ),
    ensures
        ({
            let frame = before + seq![KeyEvent::Key(key, ElementState::Pressed)] + during;
            &&& key_run(state, frame).1.contains(key)
            &&& key_run(state, frame + seq![KeyEvent::FrameEnd] + after).0.contains(key)
            &&& !key_run(state, frame + seq![KeyEvent::FrameEnd] + after).1.contains(key)
        }),
{
    let press = seq![KeyEvent::Key(key, ElementState::Pressed)];
    let start = before + press;
    let frame = start + during;
    lemma_key_run_append(state, before, press);
    assert(press.drop_last() =~= Seq::<KeyEvent>::empty());
    assert(key_run(key_run(state, before), press.drop_last()) == key_run(state, before));
    let pressed_state = key_run(state, start);
    assert(pressed_state.0.contains(key));
    assert(pressed_state.1.contains(key));
    lemma_key_run_append(state, start, during);
    lemma_press_survives_within_frame(pressed_state, key, during);
    assert(key_run(pressed_state, during).0.contains(key)) by {
        lemma_held_survives(pressed_state, key, during);
    }
    let end = seq![KeyEvent::FrameEnd];
    lemma_key_run_append(state, frame, end);
    assert(end.drop_last() =~= Seq::<KeyEvent>::empty());
    assert(key_run(key_run(state, frame), end.drop_last()) == key_run(state, frame));
    assert(key_run(state, frame) == key_run(pressed_state, during));
    let cleared = key_run(state, frame + end);
    assert(cleared.0.contains(key));
    assert(!cleared.1.contains(key));
    lemma_key_run_append(state, frame + end, after);
    lemma_held_key_stays_unpressed(cleared, key, after);
}

/// Events that do not release a held `key` keep it held.
proof fn lemma_held_survives(
    state: (Set<KeyCode>, Set<KeyCode>),
    key: KeyCode,
    events: Seq<KeyEvent>,
)
    requires
        state.0.contains(key),
        forall|i: int|
            0 <= i < events.len() ==> #[trigger] events[i] != KeyEvent::Key(
                key,
                ElementState::Released,
            ),
    ensures
        key_run(state, events).0.contains(key),
    decreases events.len(),
{
    if events.len() > 0 {
        lemma_held_survives(state, key, events.drop_last());
        assert(events.last() == events[events.len() - 1]);
    }
}

/// A button event changes only that button: a press makes it held and a
/// release makes it up, and every other button is held afterwards exactly
/// when it was held before.
pub proof fn lemma_button_event_touches_only_its_button(
    buttons: Set<MouseButton>,
    button: MouseButton,
    other: MouseButton,
)
    ensures
        buttons_after(buttons, button, ElementState::Pressed).contains(button),
        !buttons_after(buttons, button, ElementState::Released).contains(button),
        other != button ==> (buttons_after(buttons, button, ElementState::Pressed).contains(other)
            == buttons.contains(other)),
        other != button ==> (buttons_after(buttons, button, ElementState::Released).contains(
            other,
        ) == buttons.contains(other)),
        buttons_after(buttons, button, ElementState::Pressed) == buttons.insert(button),
        buttons_after(buttons, button, ElementState::Released) == buttons.remove(button),
{
}

/// A key event changes only that key: a press makes it held, and pressed
/// exactly when it was up; a release makes it neither held nor pressed; every
/// other key is held and pressed afterwards exactly as before.
pub proof fn lemma_key_event_touches_only_its_key(
    down: Set<KeyCode>,
    pressed: Set<KeyCode>,
    key: KeyCode,
    state: ElementState,
    other: KeyCode,
)
    ensures
        down_after_key(down, key, state).contains(key) == (state is Pressed),
        pressed_after_key(down, pressed, key, state).contains(key) == (state is Pressed && (
        !down.contains(key) || pressed.contains(key))),
        other != key ==> down_after_key(down, key, state).contains(other) == down.contains(
            other,
        ),
        other != key ==> pressed_after_key(down, pressed, key, state).contains(other)
            == pressed.contains(other),
{
}

} // verus!
