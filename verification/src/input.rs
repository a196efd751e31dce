use vstd::prelude::*;

use std::collections::VecDeque;
use std::time::Instant;

use crate::manager::Manager;
use crate::scene::{Active, Scene, Staged};
use crate::world::Resource;

verus! {

#[verifier::external_type_specification]
#[verifier::external_body]
pub struct ExInstant(Instant);

/// Reads the clock, through `std::time::Instant::now`.
///
/// Nothing is claimed of the instant that comes back: it depends on the time of the call.
#[verifier::external_body]
fn now() -> (t: Instant) {
    Instant::now()
}

/// Which modifier keys are held.
#[derive(Clone, Copy, PartialEq, Eq, Structural, Debug)]
pub struct ModifiersState {
    pub shift: bool,
    pub ctrl: bool,
    pub alt: bool,
    pub logo: bool,
}

impl ModifiersState {
    /// No modifier held.
    pub fn empty() -> (m: Self)
        ensures
            !m.shift && !m.ctrl && !m.alt && !m.logo,
    {
        ModifiersState { shift: false, ctrl: false, alt: false, logo: false }
    }
}

/// Whether a button went down or came up.
#[derive(Clone, Copy, PartialEq, Eq, Structural, Debug)]
pub enum ElementState {
    Pressed,
    Released,
}

/// The state of the three mouse buttons (left, middle, right), by index 0, 1, 2.
#[derive(Clone, Copy)]
pub struct MouseState {
    pub mouse_down: [bool; 3],
    pub mouse_clicked: [bool; 3],
    pub mouse_released: [bool; 3],
    pub mouse_press_time: [Option<Instant>; 3],
}

impl MouseState {
    /// No button down, clicked or released, and no press recorded.
    pub open spec fn is_idle(self) -> bool {
        &&& forall|i: int| 0 <= i < 3 ==> !#[trigger] self.mouse_down@[i]
        &&& forall|i: int| 0 <= i < 3 ==> !#[trigger] self.mouse_clicked@[i]
        &&& forall|i: int| 0 <= i < 3 ==> !#[trigger] self.mouse_released@[i]
        &&& forall|i: int| 0 <= i < 3 ==> #[trigger] self.mouse_press_time@[i] is None
    }
}

/// The state of the mouse before any button event.
pub open spec fn idle_mouse_state() -> MouseState {
    MouseState {
        mouse_down: [false, false, false],
        mouse_clicked: [false, false, false],
        mouse_released: [false, false, false],
        mouse_press_time: [None, None, None],
    }
}

impl Default for MouseState {
    fn default() -> (m: Self)
        ensures
            m == idle_mouse_state(),
            m.is_idle(),
    {
        MouseState {
            mouse_down: [false, false, false],
            mouse_clicked: [false, false, false],
            mouse_released: [false, false, false],
            mouse_press_time: [None, None, None],
        }
    }
}


/// A copy of `q`.
fn copy_queue(q: &VecDeque<u32>) -> (r: VecDeque<u32>)
    ensures
        r@ == q@,
{
    let r = q.clone();
    proof {
        assert(r@ =~= q@);
    }
    r
}

/// Collects the keyboard and mouse input of a frame and hands it to the active scene.
pub struct InputManager {
    modifier_state: ModifiersState,
    current_key_pressed: Option<u32>,
    key_input_queue: VecDeque<u32>,
    mouse_state: MouseState,
}

/// `m` with button `i` pressed: down and clicked, pressed at some instant.
pub open spec fn pressed(old: MouseState, new: MouseState, i: int) -> bool {
    &&& new.mouse_down@ == old.mouse_down@.update(i, true)
    &&& new.mouse_clicked@ == old.mouse_clicked@.update(i, true)
    &&& new.mouse_released@ == old.mouse_released@
    &&& new.mouse_press_time@[i] is Some
    &&& forall|j: int| 0 <= j < 3 && j != i ==> new.mouse_press_time@[j] == old.mouse_press_time@[j]
}

/// `m` with button `i` released: neither down nor clicked, released, no press recorded.
pub open spec fn released(old: MouseState, new: MouseState, i: int) -> bool {
    &&& new.mouse_down@ == old.mouse_down@.update(i, false)
    &&& new.mouse_clicked@ == old.mouse_clicked@.update(i, false)
    &&& new.mouse_released@ == old.mouse_released@.update(i, true)
    &&& new.mouse_press_time@ == old.mouse_press_time@.update(i, None)
}

impl InputManager {
    /// The held modifier keys.
    pub closed spec fn modifiers(self) -> ModifiersState {
        self.modifier_state
    }

    /// The key of the last key event, if it named one.
    pub closed spec fn current_key(self) -> Option<u32> {
        self.current_key_pressed
    }

    /// The keys pressed since the input was last cleared, oldest first.
    pub closed spec fn key_queue(self) -> Seq<u32> {
        self.key_input_queue@
    }

    /// The state of the mouse buttons.
    pub closed spec fn mouse(self) -> MouseState {
        self.mouse_state
    }

    /// No input yet: no modifier held, no key, and an idle mouse.
    pub open spec fn is_idle(self) -> bool {
        &&& self.modifiers() == ModifiersState { shift: false, ctrl: false, alt: false, logo: false }
        &&& self.current_key() is None
        &&& self.key_queue() == Seq::<u32>::empty()
        &&& self.mouse() == idle_mouse_state()
    }

    /// The held modifier keys.
    pub fn modifier_state(&self) -> (m: ModifiersState)
        ensures
            m == self.modifiers(),
    {
        self.modifier_state
    }

    /// The key of the last key event, if it named one.
    pub fn current_key_pressed(&self) -> (k: Option<u32>)
        ensures
            k == self.current_key(),
    {
        self.current_key_pressed
    }

    /// The keys pressed since the input was last cleared, oldest first.
    pub fn key_input_queue(&self) -> (keys: VecDeque<u32>)
        ensures
            keys@ == self.key_queue(),
    {
        copy_queue(&self.key_input_queue)
    }

    /// The state of the mouse buttons.
    pub fn mouse_state(&self) -> (m: MouseState)
        ensures
            m == self.mouse(),
    {
        self.mouse_state
    }

    /// A manager that has seen no input.
    pub fn new() -> (m: Self)
        ensures
            m.is_idle(),
    {
        InputManager {
            modifier_state: ModifiersState::empty(),
            current_key_pressed: None,
            key_input_queue: VecDeque::new(),
            mouse_state: MouseState::default(),
        }
    }

    /// A manager that has seen no input.
    pub fn create_new() -> (m: Self)
        ensures
            m.is_idle(),
    {
        InputManager::new()
    }

    /// Records the modifier keys now held.
    pub fn handle_modifier_change(&mut self, new_state: ModifiersState)
        ensures
            final(self).modifiers() == new_state,
            final(self).current_key() == old(self).current_key(),
            final(self).key_queue() == old(self).key_queue(),
            final(self).mouse() == old(self).mouse(),
    {
        self.modifier_state = new_state;
    }

    /// Records a key event: a named key joins the queue behind the earlier ones, and becomes
    /// the current key; an event that names no key clears the current key.
    pub fn handle_key_input(&mut self, key_pressed: Option<u32>)
        ensures
            final(self).current_key() == key_pressed,
            final(self).key_queue() == match key_pressed {
                Some(k) => old(self).key_queue().push(k),
                None => old(self).key_queue(),
            },
            final(self).modifiers() == old(self).modifiers(),
            final(self).mouse() == old(self).mouse(),
    {
        match key_pressed {
            Some(key) => self.key_input_queue.push_back(key),
            None => {},
        }
        self.current_key_pressed = key_pressed;
    }

    /// Records a mouse button event; buttons 1, 2 and 3 are left, middle and right.
    pub fn handle_mouse_button(&mut self, button: u32, state: ElementState)
        requires
            1 <= button <= 3,
        ensures
            state == ElementState::Pressed ==> pressed(old(self).mouse(), final(self).mouse(), button - 1),
            state == ElementState::Released ==> released(old(self).mouse(), final(self).mouse(), button - 1),
            final(self).modifiers() == old(self).modifiers(),
            final(self).current_key() == old(self).current_key(),
            final(self).key_queue() == old(self).key_queue(),
    {
        let button_index: usize = (button - 1) as usize;
        match state {
            ElementState::Pressed => {
                self.mouse_state.mouse_clicked.set(button_index, true);
                self.mouse_state.mouse_down.set(button_index, true);
                let t = now();
                self.mouse_state.mouse_press_time.set(button_index, Some(t));
            },
            ElementState::Released => {
                self.mouse_state.mouse_clicked.set(button_index, false);
                self.mouse_state.mouse_down.set(button_index, false);
                self.mouse_state.mouse_released.set(button_index, true);
                self.mouse_state.mouse_press_time.set(button_index, None);
            },
        }
    }

    /// Gives the staged scene a copy of the key queue and the held modifiers.
    pub fn prep_staged_scene(&mut self, scene: &mut Scene<Staged>)
        ensures
            *final(self) == *old(self),
            final(scene).world_view() == match old(scene).world_view() {
                Some(w) => Some(w.with_key_queue(old(self).key_queue()).with_modifiers(old(self).modifiers())),
                None => None,
            },
            final(scene).state == old(scene).state,
    {
        scene.insert_resource(Resource::KeyInputQueue(copy_queue(&self.key_input_queue)));
        scene.insert_resource(Resource::Modifiers(self.modifier_state));
    }

    /// Forgets the input of the frame: no current key, an empty key queue, and no button
    /// clicked. Held buttons, released buttons and press times stay.
    pub fn clear_input_state(&mut self)
        ensures
            final(self).current_key() is None,
            final(self).key_queue() == Seq::<u32>::empty(),
            final(self).modifiers() == old(self).modifiers(),
            final(self).mouse().mouse_clicked@ == seq![false, false, false],
            final(self).mouse().mouse_down == old(self).mouse().mouse_down,
            final(self).mouse().mouse_released == old(self).mouse().mouse_released,
            final(self).mouse().mouse_press_time == old(self).mouse().mouse_press_time,
    {
        self.current_key_pressed = None;
        self.key_input_queue.clear();
        self.mouse_state.mouse_clicked = [false, false, false];
        proof {
            assert(self.mouse_state.mouse_clicked@ =~= seq![false, false, false]);
        }
    }
}

impl Manager for InputManager {
    /// Starts the manager; there is nothing to set up.
    fn startup(&mut self)
        ensures
            *final(self) == *old(self),
    {
    }

    /// Shuts the manager down; there is nothing to release.
    fn shutdown(&mut self)
        ensures
            *final(self) == *old(self),
    {
    }

    /// Hands the frame's input to the active scene (a copy of the key queue, the held
    /// modifiers and the mouse state) and then forgets it, as `clear_input_state` does.
    fn update(&mut self, scene: &mut Scene<Active>)
        ensures
            final(scene).world_view() == match old(scene).world_view() {
                Some(w) => Some(
                    w.with_key_queue(old(self).key_queue()).with_modifiers(
                        old(self).modifiers(),
                    ).with_mouse(old(self).mouse()),
                ),
                None => None,
            },
            final(scene).state == old(scene).state,
            final(self).current_key() is None,
            final(self).key_queue() == Seq::<u32>::empty(),
            final(self).modifiers() == old(self).modifiers(),
            final(self).mouse().mouse_clicked@ == seq![false, false, false],
            final(self).mouse().mouse_down == old(self).mouse().mouse_down,
            final(self).mouse().mouse_released == old(self).mouse().mouse_released,
            final(self).mouse().mouse_press_time == old(self).mouse().mouse_press_time,
    {
        scene.insert_resource(Resource::KeyInputQueue(copy_queue(&self.key_input_queue)));
        scene.insert_resource(Resource::Modifiers(self.modifier_state));
        scene.insert_resource(Resource::MouseState(self.mouse_state));
        self.clear_input_state();
    }
}

} // verus!
