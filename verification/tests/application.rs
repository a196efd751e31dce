use ember::application::{
    handle_device_event, handle_event, handle_window_event, log_level_from_args, should_run_update,
    skip_ticks, ApplicationIdleState, ApplicationState, DeviceEvent, Event, LogLevel, WindowAction,
    WindowEvent, MAX_FRAME_SKIP, TICKS_PER_SECOND,
};
use ember::components::{
    Component, ComponentKind, DebugUiComponent, FileSubMenuComponent, InputComponent,
};
use ember::input::{ElementState, InputManager, ModifiersState};
use ember::scene::{Scene, Staged};
use ember::schedule::{SystemExecutor, SystemKind};
use ember::world::{OtherResource, ResourceKind, World, WorldView};

struct Recorder {
    ran: Vec<SystemKind>,
}

impl SystemExecutor for Recorder {
    /// Running a system here leaves the world as it is.
    fn step(&self, _system: SystemKind, w: WorldView) -> WorldView {
        w
    }

    fn run_system(&mut self, system: SystemKind, _world: &mut World) {
        self.ran.push(system);
    }
}

fn args(list: &[&str]) -> Vec<String> {
    list.iter().map(|s| s.to_string()).collect()
}

#[test]
fn command_line_sets_the_log_level() {
    assert_eq!(log_level_from_args(&args(&["ember"])), (LogLevel::Info, None));
    assert_eq!(log_level_from_args(&args(&["ember", "debug"])), (LogLevel::Debug, None));
    assert_eq!(log_level_from_args(&args(&["ember", "brooke"])), (LogLevel::Info, Some("hi brooke")));
    assert_eq!(
        log_level_from_args(&args(&["ember", "verbose"])),
        (LogLevel::Info, Some("Get fucked that's not a valid log level"))
    );
}

#[test]
fn update_pacing() {
    assert_eq!(skip_ticks(TICKS_PER_SECOND), 40);
    assert!(should_run_update(true, 0));
    assert!(should_run_update(true, MAX_FRAME_SKIP - 1));
    assert!(!should_run_update(true, MAX_FRAME_SKIP));
    assert!(!should_run_update(false, 0));
}

#[test]
fn window_events_route_to_the_input_manager() {
    let mut input = InputManager::new();
    assert_eq!(handle_window_event(&mut input, &WindowEvent::CloseRequested), WindowAction::Exit);
    assert_eq!(handle_window_event(&mut input, &WindowEvent::Resized), WindowAction::RecreateSwapchain);
    let pressed = WindowEvent::KeyboardInput { key: Some(12), state: ElementState::Pressed };
    assert_eq!(handle_window_event(&mut input, &pressed), WindowAction::Nothing);
    let released = WindowEvent::KeyboardInput { key: Some(13), state: ElementState::Released };
    handle_window_event(&mut input, &released);
    let unnamed = WindowEvent::KeyboardInput { key: None, state: ElementState::Pressed };
    handle_window_event(&mut input, &unnamed);
    assert_eq!(input.key_input_queue().into_iter().collect::<Vec<u32>>(), vec![12]);
    assert_eq!(input.current_key_pressed(), Some(12));
    let m = ModifiersState { shift: false, ctrl: true, alt: false, logo: false };
    handle_window_event(&mut input, &WindowEvent::ModifiersChanged(m));
    assert_eq!(input.modifier_state(), m);
    assert_eq!(handle_window_event(&mut input, &WindowEvent::Focused(true)), WindowAction::Nothing);
}

#[test]
fn device_and_loop_events() {
    let mut input = InputManager::new();
    handle_device_event(&mut input, &DeviceEvent::Button { button: 2, state: ElementState::Pressed });
    assert_eq!(input.mouse_state().mouse_down, [false, true, false]);
    handle_device_event(&mut input, &DeviceEvent::MouseMotion);
    let r = handle_event(&mut input, &Event::MainEventsCleared);
    assert!(r.render);
    let consumed = Event::Window { event: WindowEvent::CloseRequested, consumed: true };
    let r = handle_event(&mut input, &consumed);
    assert!(!r.render);
    assert_eq!(r.action, WindowAction::Nothing);
    let close = Event::Window { event: WindowEvent::CloseRequested, consumed: false };
    assert_eq!(handle_event(&mut input, &close).action, WindowAction::Exit);
    let button = Event::Device(DeviceEvent::Button { button: 2, state: ElementState::Released });
    handle_event(&mut input, &button);
    assert_eq!(input.mouse_state().mouse_released, [false, true, false]);
}

#[test]
fn idle_state_lays_its_interface_over_the_staged_scene() {
    let mut state = ApplicationIdleState::create();
    assert_eq!(state.scene_interface_path(), "./idle_state.ron");
    assert!(state.schedule.is_none());
    state.init_schedule();
    assert!(state.schedule.is_some());
    let mut scene = Scene::<Staged>::new();
    state.overlay_interface_on_staged_scene(&mut scene, "/projects".to_string());
    let world = scene.world.as_ref().unwrap();
    assert!(world.contains_resource(ResourceKind::TypeRegistryArc));
    assert!(world.contains_resource(ResourceKind::Other(OtherResource::MainMenuMessages)));
    assert_eq!(world.entity_count(), 2);
    assert_eq!(
        world.entity_components(0),
        vec![
            ComponentKind::AppInterfaceFlag,
            ComponentKind::MainMenuComponent,
            ComponentKind::DebugUiComponent,
            ComponentKind::FileSubMenuComponent,
        ]
    );
    assert_eq!(
        world.entity_components(1),
        vec![ComponentKind::CameraComponent, ComponentKind::TransformComponent, ComponentKind::InputComponent]
    );
    assert_eq!(
        world.entity_component_values(0),
        vec![
            Component::Other(ComponentKind::AppInterfaceFlag),
            Component::Other(ComponentKind::MainMenuComponent),
            Component::DebugUi(DebugUiComponent::create()),
            Component::FileSubMenu(FileSubMenuComponent::new("/projects".to_string())),
        ]
    );
    assert_eq!(
        world.entity_component_values(1),
        vec![
            Component::Other(ComponentKind::CameraComponent),
            Component::Other(ComponentKind::TransformComponent),
            Component::Input(InputComponent::create()),
        ]
    );
    let arc = world.type_registry_arc().unwrap();
    assert!(arc.contains(ComponentKind::MainMenuComponent));
    assert_eq!(arc.kinds().len(), 6);
    let mut recorder = Recorder { ran: Vec::new() };
    let mut active = scene.activate(&mut recorder);
    state.run_schedule(&mut active, &mut recorder);
    assert_eq!(recorder.ran.len(), 5);
}

#[test]
fn unconsumed_key_events_reach_the_input_manager() {
    let mut input = InputManager::new();
    let key = Event::Window {
        event: WindowEvent::KeyboardInput { key: Some(30), state: ElementState::Pressed },
        consumed: false,
    };
    let r = handle_event(&mut input, &key);
    assert_eq!(r.action, WindowAction::Nothing);
    assert_eq!(input.current_key_pressed(), Some(30));
    assert_eq!(input.key_input_queue().len(), 1);
    let taken = Event::Window {
        event: WindowEvent::KeyboardInput { key: Some(31), state: ElementState::Pressed },
        consumed: true,
    };
    handle_event(&mut input, &taken);
    assert_eq!(input.current_key_pressed(), Some(30));
    assert_eq!(input.key_input_queue().len(), 1);
}
