//! Button and key state of the app window, fed by input events.
//!
//! Only buttons and keys live here; pointer coordinates stay with the window layer.
//! Key codes are numbers chosen by the window layer.
use vstd::prelude::*;
use std::collections::HashMap;

verus! {

broadcast use vstd::std_specs::hash::group_hash_axioms;

/// Mouse buttons the app distinguishes.
#[derive(Clone, Copy, Debug, PartialEq, Eq, Structural)]
pub enum MouseButton {
    Left,
    Right,
    Middle,
    Other,
}

/// The input events that change button or key state.
#[derive(Clone, Copy, Debug, PartialEq, Eq, Structural)]
pub enum InputEvent {
    KeyboardInput { key_code: u32, pressed: bool },
    MouseButtonInput { button: MouseButton, pressed: bool },
    /// Any other event (pointer motion, wheel, resize, ...).
    Other,
}

/// The button part of the input state.
pub struct Buttons {
    pub right: bool,
    pub middle: bool,
    pub middle_just_pressed: bool,
    pub middle_just_released: bool,
}

/// The buttons after one event. A middle-button press marks an edge only when the
/// button was up; a release marks one only when it was down. Marks stay set until
/// the next frame begins.
pub open spec fn step_buttons(b: Buttons, event: InputEvent) -> Buttons {
    match event {
        InputEvent::MouseButtonInput { button: MouseButton::Right, pressed } => Buttons { right: pressed, ..b },
        InputEvent::MouseButtonInput { button: MouseButton::Middle, pressed } => if pressed {
            Buttons { middle: true, middle_just_pressed: !b.middle, ..b }
        } else {
            Buttons { middle: false, middle_just_released: b.middle, ..b }
        },
        _ => b,
    }
}

/// Button and key state seen by this frame's update.
pub struct InputState {
    pub right_button_pressed: bool,
    pub middle_button_pressed: bool,
    pub middle_button_just_pressed: bool,
    pub middle_button_just_released: bool,
    pub key_pressed: HashMap<u32, bool>,
}

/// Whether the key map records `key` as pressed (unknown keys are released).
pub open spec fn key_down(keys: Map<u32, bool>, key: u32) -> bool {
    keys.contains_key(key) && keys[key]
}

impl InputState {
    pub open spec fn buttons(self) -> Buttons {
        Buttons {
            right: self.right_button_pressed,
            middle: self.middle_button_pressed,
            middle_just_pressed: self.middle_button_just_pressed,
            middle_just_released: self.middle_button_just_released,
        }
    }

    pub fn new() -> (s: Self)
        ensures
            !s.right_button_pressed,
            !s.middle_button_pressed,
            !s.middle_button_just_pressed,
            !s.middle_button_just_released,
            s.key_pressed@ == Map::<u32, bool>::empty(),
    {
        InputState {
            right_button_pressed: false,
            middle_button_pressed: false,
            middle_button_just_pressed: false,
            middle_button_just_released: false,
            key_pressed: HashMap::new(),
        }
    }

    pub fn is_key_pressed(&self, key_code: u32) -> (b: bool)
        ensures
            b == key_down(self.key_pressed@, key_code),
    {
        match self.key_pressed.get(&key_code) {
            Some(v) => *v,
            None => false,
        }
    }

    pub fn is_right_button_pressed(&self) -> (b: bool)
        ensures
            b == self.right_button_pressed,
    {
        self.right_button_pressed
    }

    pub fn is_middle_button_pressed(&self) -> (b: bool)
        ensures
            b == self.middle_button_pressed,
    {
        self.middle_button_pressed
    }

    pub fn is_middle_button_just_pressed(&self) -> (b: bool)
        ensures
            b == self.middle_button_just_pressed,
    {
        self.middle_button_just_pressed
    }

    pub fn is_middle_button_just_released(&self) -> (b: bool)
        ensures
            b == self.middle_button_just_released,
    {
        self.middle_button_just_released
    }
}

/// Owner of the input state; applies events in order.
pub struct InputManager {
    pub state: InputState,
}

impl InputManager {
    pub fn new() -> (m: Self)
        ensures
            !m.state.right_button_pressed,
            !m.state.middle_button_pressed,
            !m.state.middle_button_just_pressed,
            !m.state.middle_button_just_released,
            m.state.key_pressed@ == Map::<u32, bool>::empty(),
    {
        InputManager { state: InputState::new() }
    }

    pub fn state(&self) -> (s: &InputState)
        ensures
            s == &self.state,
    {
        &self.state
    }

    /// Starts a frame: the middle-button edges of the last frame are forgotten.
    pub fn begin_frame(&mut self)
        ensures
            !final(self).state.middle_button_just_pressed,
            !final(self).state.middle_button_just_released,
            final(self).state.middle_button_pressed == old(self).state.middle_button_pressed,
            final(self).state.right_button_pressed == old(self).state.right_button_pressed,
            final(self).state.key_pressed@ == old(self).state.key_pressed@,
    {
        self.state.middle_button_just_pressed = false;
        self.state.middle_button_just_released = false;
    }

    /// Applies one event: a key event records the key's state, a button event
    /// updates the buttons as [`step_buttons`] says, other events change nothing here.
    pub fn process_event(&mut self, event: &InputEvent)
        ensures
            final(self).state.buttons() == step_buttons(old(self).state.buttons(), *event),
            *event matches InputEvent::KeyboardInput { key_code, pressed }
                ==> final(self).state.key_pressed@ == old(self).state.key_pressed@.insert(key_code, pressed),
            !(*event is KeyboardInput) ==> final(self).state.key_pressed@ == old(self).state.key_pressed@,
    {
        match event {
            InputEvent::KeyboardInput { key_code, pressed } => {
                self.state.key_pressed.insert(*key_code, *pressed);
            },
            InputEvent::MouseButtonInput { button, pressed } => {
                let pressed = *pressed;
                match button {
                    MouseButton::Right => {
                        self.state.right_button_pressed = pressed;
                    },
                    MouseButton::Middle => {
                        if pressed {
                            self.state.middle_button_just_pressed = !self.state.middle_button_pressed;
                            self.state.middle_button_pressed = true;
                        } else {
                            self.state.middle_button_just_released = self.state.middle_button_pressed;
                            self.state.middle_button_pressed = false;
                        }
                    },
                    _ => {},
                }
            },
            InputEvent::Other => {},
        }
    }
}

/// At the start of a frame no edge is marked; a middle press marks "just pressed"
/// exactly when the button was up, and a release right after it marks "just
/// released" while keeping the press mark, so a click within one frame shows both.
pub proof fn lemma_middle_click_within_frame(b: Buttons)
    requires
        !b.middle_just_pressed,
        !b.middle_just_released,
    ensures
        ({
            let pressed = step_buttons(b, InputEvent::MouseButtonInput { button: MouseButton::Middle, pressed: true });
            let released = step_buttons(pressed, InputEvent::MouseButtonInput { button: MouseButton::Middle, pressed: false });
            &&& pressed.middle
            &&& pressed.middle_just_pressed == !b.middle
            &&& !released.middle
            &&& released.middle_just_released
            &&& released.middle_just_pressed == !b.middle
        }),
{
}

/// A repeated press while the middle button is already down marks no new edge, and
/// a release while it is up leaves no release mark.
pub proof fn lemma_middle_no_edge_without_transition(b: Buttons)
    ensures
        b.middle ==> step_buttons(b, InputEvent::MouseButtonInput { button: MouseButton::Middle, pressed: true }).middle_just_pressed == false,
        !b.middle ==> step_buttons(b, InputEvent::MouseButtonInput { button: MouseButton::Middle, pressed: false }).middle_just_released == false,
{
}


/// The right button is reported held exactly when its latest event was a press:
/// a right-button event sets it to that event's state whatever it was before, and
/// no other event changes it. A press followed by a release leaves it up.
pub proof fn lemma_right_button_follows_last_event(b: Buttons, event: InputEvent, pressed: bool)
    ensures
        step_buttons(b, InputEvent::MouseButtonInput { button: MouseButton::Right, pressed }).right == pressed,
        !(event matches InputEvent::MouseButtonInput { button: MouseButton::Right, .. }) ==> step_buttons(
            b,
            event,
        ).right == b.right,
        !step_buttons(
            step_buttons(b, InputEvent::MouseButtonInput { button: MouseButton::Right, pressed: true }),
            InputEvent::MouseButtonInput { button: MouseButton::Right, pressed: false },
        ).right,
{
}

} // verus!
