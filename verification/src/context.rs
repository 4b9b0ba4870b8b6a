//! The engine's per-run state that the game observes between frames: input
//! and the count of presented frames, with the decisions the event loop
//! takes for each window event.

use vstd::prelude::*;

use crate::input::{
    buttons_after, down_after_key, key_run, key_step, lemma_press_reported_for_exactly_its_frame,
    pressed_after_key, InputState, KeyEvent,
};
use crate::keycode::KeyCode;
use crate::mouse::MouseButton;
use crate::native::{ElementState, NativeKeyCode, NativeMouseButton};

verus! {

/// The engine state that input events and frame presentation update.
pub struct Context {
    /// Keyboard and mouse-button state.
    pub input: InputState,
    /// Number of frames presented so far; drives [`crate::frame::next_frame`].
    pub frame: u64,
    /// The key events and frame ends handled so far, oldest first.
    pub events: Ghost<Seq<KeyEvent>>,
}

/// No key held and none pressed: the key state when the window opens.
pub open spec fn no_keys() -> (Set<KeyCode>, Set<KeyCode>) {
    (Set::empty(), Set::empty())
}

impl Context {
    /// The key state is the one that the recorded events lead to from the
    /// opening state.
    pub open spec fn follows_events(&self) -> bool {
        (self.input.keys_down@, self.input.keys_pressed@) == key_run(no_keys(), self.events@)
    }

    /// The state when the window opens: nothing held, no frame presented.
    pub fn new() -> (ctx: Self)
        ensures
            ctx.frame == 0,
            ctx.input.keys_down@ == Set::<KeyCode>::empty(),
            ctx.input.keys_pressed@ == Set::<KeyCode>::empty(),
            ctx.input.mouse_buttons_down@ == Set::<MouseButton>::empty(),
            ctx.input.consistent(),
            ctx.events@ == Seq::<KeyEvent>::empty(),
            ctx.follows_events(),
    {
        Context { input: InputState::default(), frame: 0, events: Ghost(Seq::empty()) }
    }

    /// Handles a keyboard event from the window: a key the engine models
    /// updates the input state, any other key is ignored.
    pub fn on_keyboard_input(&mut self, code: NativeKeyCode, state: ElementState)
        ensures
            final(self).frame == old(self).frame,
            final(self).input.mouse_buttons_down@ == old(self).input.mouse_buttons_down@,
            forall|k: KeyCode|
                #[trigger] k.native() == code ==> {
                    &&& final(self).input.keys_down@ == down_after_key(
                        old(self).input.keys_down@,
                        k,
                        state,
                    )
                    &&& final(self).input.keys_pressed@ == pressed_after_key(
                        old(self).input.keys_down@,
                        old(self).input.keys_pressed@,
                        k,
                        state,
                    )
                    &&& (final(self).input.keys_down@, final(self).input.keys_pressed@)
                        == key_step(
                        (old(self).input.keys_down@, old(self).input.keys_pressed@),
                        KeyEvent::Key(k, state),
                    )
                },
            (forall|k: KeyCode| #[trigger] k.native() != code) ==> {
                &&& final(self).input.keys_down@ == old(self).input.keys_down@
                &&& final(self).input.keys_pressed@ == old(self).input.keys_pressed@
            },
            old(self).input.consistent() ==> final(self).input.consistent(),
            forall|k: KeyCode|
                #[trigger] k.native() == code ==> final(self).events@ == old(self).events@.push(
                    KeyEvent::Key(k, state),
                ),
            (forall|k: KeyCode| #[trigger] k.native() != code)
                ==> final(self).events@ == old(self).events@,
            old(self).follows_events() ==> final(self).follows_events(),
    {
        if let Some(key) = KeyCode::from_native(code) {
            self.input.on_key(key, state);
            proof {
                let before = self.events@;
                self.events@ = before.push(KeyEvent::Key(key, state));
                assert(self.events@.drop_last() =~= before);
            }
        }
    }

    /// Handles a mouse-button event from the window: a button the engine
    /// models updates the input state, any other button is ignored.
    pub fn on_mouse_input(&mut self, button: NativeMouseButton, state: ElementState)
        ensures
            final(self).frame == old(self).frame,
            final(self).input.keys_down@ == old(self).input.keys_down@,
            final(self).input.keys_pressed@ == old(self).input.keys_pressed@,
            forall|b: MouseButton|
                #[trigger] b.native() == button ==> final(self).input.mouse_buttons_down@
                    == buttons_after(old(self).input.mouse_buttons_down@, b, state),
            forall|b: MouseButton|
                #[trigger] b.native() == button ==> {
                    &&& state is Pressed ==> final(self).input.mouse_buttons_down@ == old(
                        self,
                    ).input.mouse_buttons_down@.insert(b)
                    &&& state is Released ==> final(self).input.mouse_buttons_down@ == old(
                        self,
                    ).input.mouse_buttons_down@.remove(b)
                },
            (forall|b: MouseButton| #[trigger] b.native() != button)
                ==> final(self).input.mouse_buttons_down@ == old(self).input.mouse_buttons_down@,
            final(self).events@ == old(self).events@,
            old(self).follows_events() ==> final(self).follows_events(),
    {
        if let Some(b) = MouseButton::from_native(button) {
            self.input.on_mouse_button(b, state);
        }
    }

    /// Closes out a presented frame: counts it, then drops the one-frame
    /// events so the next tick sees only what happens after it.
    pub fn finish_frame(&mut self)
        requires
            old(self).frame < u64::MAX,
        ensures
            final(self).frame == old(self).frame + 1,
            final(self).input.keys_pressed@ == Set::<KeyCode>::empty(),
            final(self).input.keys_down@ == old(self).input.keys_down@,
            final(self).input.mouse_buttons_down@ == old(self).input.mouse_buttons_down@,
            final(self).input.consistent(),
            (final(self).input.keys_down@, final(self).input.keys_pressed@) == key_step(
                (old(self).input.keys_down@, old(self).input.keys_pressed@),
                KeyEvent::FrameEnd,
            ),
            final(self).events@ == old(self).events@.push(KeyEvent::FrameEnd),
            old(self).follows_events() ==> final(self).follows_events(),
    {
        self.frame = self.frame + 1;
        self.input.begin_frame();
        proof {
            let before = self.events@;
            self.events@ = before.push(KeyEvent::FrameEnd);
            assert(self.events@.drop_last() =~= before);
        }
    }
}

/// A press is read for exactly the frame it arrives in, over whole runs of
/// engine calls: take a context driven from the opening state through
/// `before`, a press of `key` while it was up, and `during` (no frame end, no
/// release of `key`), and a later context driven further through a frame end
/// and `after` (no release of `key`). The first reads `key` as pressed; the
/// later one reads it as held and not pressed, OS key repeats included.
pub proof fn lemma_press_read_for_exactly_its_frame(
    this_frame: &Context,
    later: &Context,
    key: KeyCode,
    before: Seq<KeyEvent>,
    during: Seq<KeyEvent>,
    after: Seq<KeyEvent>,
)
    requires
        this_frame.follows_events(),
        later.follows_events(),
        !key_run(no_keys(), before).0.contains(key),
        this_frame.events@ == before + seq![KeyEvent::Key(key, ElementState::Pressed)] + during,
        later.events@ == this_frame.events@ + seq![KeyEvent::FrameEnd] + after,
        forall|i: int|
            0 <= i < during.len() ==> !(#[trigger] during[i] is FrameEnd) && during[i]
                != KeyEvent::Key(key, ElementState::Released),
        forall|i: int|
            0 <= i < after.len() ==> #[trigger] after[i] != KeyEvent::Key(
                key,
                ElementState::Released,
            ),
    ensures
        this_frame.input.keys_pressed@.contains(key),
        later.input.keys_down@.contains(key),
        !later.input.keys_pressed@.contains(key),
{
    lemma_press_reported_for_exactly_its_frame(no_keys(), key, before, during, after);
}

} // verus!
