use ember::input::{ElementState, InputManager, ModifiersState};
use ember::manager::Manager;
use ember::scene::{Scene, Staged};
use ember::schedule::{SystemExecutor, SystemKind};
use ember::world::{World, WorldView};

struct Quiet;

impl SystemExecutor for Quiet {
    /// Running a system here leaves the world as it is.
    fn step(&self, _system: SystemKind, w: WorldView) -> WorldView {
        w
    }

    fn run_system(&mut self, _system: SystemKind, _world: &mut World) {}
}

fn shift() -> ModifiersState {
    ModifiersState { shift: true, ctrl: false, alt: false, logo: false }
}

#[test]
fn new_manager_is_idle() {
    let input = InputManager::new();
    assert_eq!(input.current_key_pressed(), None);
    assert!(input.key_input_queue().is_empty());
    assert_eq!(input.modifier_state(), ModifiersState::empty());
    let mouse = input.mouse_state();
    assert_eq!(mouse.mouse_down, [false; 3]);
    assert_eq!(mouse.mouse_clicked, [false; 3]);
    assert_eq!(mouse.mouse_released, [false; 3]);
    assert!(mouse.mouse_press_time.iter().all(|t| t.is_none()));
    assert_eq!(InputManager::create_new().current_key_pressed(), None);
}

#[test]
fn keys_queue_in_order_and_the_last_event_is_current() {
    let mut input = InputManager::new();
    input.handle_key_input(Some(7));
    input.handle_key_input(Some(9));
    assert_eq!(input.current_key_pressed(), Some(9));
    input.handle_key_input(None);
    assert_eq!(input.current_key_pressed(), None);
    assert_eq!(input.key_input_queue().into_iter().collect::<Vec<u32>>(), vec![7, 9]);
}

#[test]
fn mouse_press_and_release_update_the_button() {
    let mut input = InputManager::new();
    input.handle_mouse_button(3, ElementState::Pressed);
    let m = input.mouse_state();
    assert_eq!(m.mouse_down, [false, false, true]);
    assert_eq!(m.mouse_clicked, [false, false, true]);
    assert!(m.mouse_press_time[2].is_some());
    assert!(m.mouse_press_time[0].is_none());
    input.handle_mouse_button(3, ElementState::Released);
    let m = input.mouse_state();
    assert_eq!(m.mouse_down, [false; 3]);
    assert_eq!(m.mouse_clicked, [false; 3]);
    assert_eq!(m.mouse_released, [false, false, true]);
    assert!(m.mouse_press_time[2].is_none());
}

#[test]
fn update_hands_the_frame_input_to_the_scene_and_clears_it() {
    let mut input = InputManager::new();
    input.handle_key_input(Some(7));
    input.handle_key_input(Some(9));
    input.handle_modifier_change(shift());
    input.handle_mouse_button(1, ElementState::Pressed);
    let mut scene = Scene::<Staged>::new().activate(&mut Quiet);
    input.update(&mut scene);
    let world = scene.world.as_ref().unwrap();
    assert_eq!(world.key_input_queue(), Some(vec![7, 9]));
    assert_eq!(world.modifiers(), Some(shift()));
    let mouse = world.mouse_state().unwrap();
    assert_eq!(mouse.mouse_down, [true, false, false]);
    assert_eq!(mouse.mouse_clicked, [true, false, false]);
    assert!(input.key_input_queue().is_empty());
    assert_eq!(input.current_key_pressed(), None);
    assert_eq!(input.modifier_state(), shift());
    let after = input.mouse_state();
    assert_eq!(after.mouse_clicked, [false; 3]);
    assert_eq!(after.mouse_down, [true, false, false]);
    assert!(after.mouse_press_time[0].is_some());
}

#[test]
fn staged_scene_gets_keys_and_modifiers_but_not_the_mouse() {
    let mut input = InputManager::new();
    input.handle_key_input(Some(3));
    input.handle_modifier_change(shift());
    let mut scene = Scene::<Staged>::new();
    input.prep_staged_scene(&mut scene);
    let world = scene.world.as_ref().unwrap();
    assert_eq!(world.key_input_queue(), Some(vec![3]));
    assert_eq!(world.modifiers(), Some(shift()));
    assert!(world.mouse_state().is_none());
    assert_eq!(input.key_input_queue().len(), 1);
}

#[test]
fn clearing_keeps_held_and_released_buttons() {
    let mut input = InputManager::new();
    input.handle_mouse_button(2, ElementState::Pressed);
    input.handle_mouse_button(1, ElementState::Pressed);
    input.handle_mouse_button(1, ElementState::Released);
    input.clear_input_state();
    let m = input.mouse_state();
    assert_eq!(m.mouse_clicked, [false; 3]);
    assert_eq!(m.mouse_down, [false, true, false]);
    assert_eq!(m.mouse_released, [true, false, false]);
    input.startup();
    input.shutdown();
    assert_eq!(input.mouse_state().mouse_down, [false, true, false]);
}
