use vstd::prelude::*;

use crate::components::{
    Component, ComponentData, ComponentKind, DebugUiComponent, FileSubMenuComponent, InputComponent,
};
use crate::input::{ElementState, InputManager, ModifiersState};
use crate::scene::{Active, Scene, Staged};
use crate::schedule::{after_schedule, same_steps, Schedule, StageLabel, SystemExecutor, SystemStageView};
use crate::world::{OtherResource, ResourceKind, WorldView};
use crate::components::kinds_of;

verus! {

/// How much the application logs.
#[derive(Clone, Copy, PartialEq, Eq, Structural, Debug)]
pub enum LogLevel {
    Info,
    Debug,
}

/// The log level that the command line asks for, and the line to print, if any: `debug` as
/// the first argument turns on debug logging, `brooke` is greeted, and any other first
/// argument is refused (logging stays at info level).
pub open spec fn spec_log_level_from_args(args: Seq<Seq<char>>) -> (LogLevel, Option<Seq<char>>) {
    if args.len() > 1 {
        if args[1] == "debug"@ {
            (LogLevel::Debug, None)
        } else if args[1] == "brooke"@ {
            (LogLevel::Info, Some("hi brooke"@))
        } else {
            (LogLevel::Info, Some("Get fucked that's not a valid log level"@))
        }
    } else {
        (LogLevel::Info, None)
    }
}

/// The log level that the command line `args` asks for, and the line to print, if any.
pub fn log_level_from_args(args: &Vec<String>) -> (r: (LogLevel, Option<&'static str>))
    ensures
        r.0 == spec_log_level_from_args(args@.map_values(|a: String| a@)).0,
        match (r.1, spec_log_level_from_args(args@.map_values(|a: String| a@)).1) {
            (Some(line), Some(expected)) => line@ == expected,
            (None, None) => true,
            _ => false,
        },
{
    let ghost views = args@.map_values(|a: String| a@);
    if args.len() > 1 {
        let debug = String::from_str("debug");
        let brooke = String::from_str("brooke");
        proof {
            assert(views[1] == args@[1]@);
        }
        if args[1] == debug {
            (LogLevel::Debug, None)
        } else if args[1] == brooke {
            (LogLevel::Info, Some("hi brooke"))
        } else {
            (LogLevel::Info, Some("Get fucked that's not a valid log level"))
        }
    } else {
        (LogLevel::Info, None)
    }
}

/// The number of milliseconds between two updates at `ticks_per_second` updates a second.
pub fn skip_ticks(ticks_per_second: u64) -> (ms: u64)
    requires
        ticks_per_second > 0,
    ensures
        ms == 1000u64 / ticks_per_second,
{
    1000 / ticks_per_second
}

/// The most updates that run between two frames.
pub const MAX_FRAME_SKIP: u32 = 5;

/// The updates per second the application aims at.
pub const TICKS_PER_SECOND: u64 = 25;

/// Whether another update runs before the next frame: the time of the next update has passed
/// and fewer than `MAX_FRAME_SKIP` updates ran since the last frame.
pub fn should_run_update(next_tick_passed: bool, loops: u32) -> (b: bool)
    ensures
        b == (next_tick_passed && loops < MAX_FRAME_SKIP),
{
    next_tick_passed && loops < MAX_FRAME_SKIP
}

/// What the window asks of the application.
#[derive(Clone, Copy, PartialEq, Eq, Structural, Debug)]
pub enum WindowAction {
    Nothing,
    Exit,
    RecreateSwapchain,
}

/// An event of the window.
pub enum WindowEvent {
    CloseRequested,
    Resized,
    /// A key event; `key` is the code of the key, when the platform names one.
    KeyboardInput { key: Option<u32>, state: ElementState },
    CursorEntered,
    CursorLeft,
    Focused(bool),
    ModifiersChanged(ModifiersState),
    Other,
}

/// What a window event asks of the window: closing asks to exit, resizing asks for a new
/// swapchain, anything else asks nothing.
pub open spec fn window_event_action(event: WindowEvent) -> WindowAction {
    match event {
        WindowEvent::CloseRequested => WindowAction::Exit,
        WindowEvent::Resized => WindowAction::RecreateSwapchain,
        _ => WindowAction::Nothing,
    }
}

/// Whether `new` is the input manager `old` after window event `event`: a named key that
/// goes down is queued and becomes the current key, a change of modifiers is recorded, and
/// any other event changes nothing.
pub open spec fn window_event_applied(old: InputManager, new: InputManager, event: WindowEvent) -> bool {
    match event {
        WindowEvent::KeyboardInput { key, state } => if key is Some && state == ElementState::Pressed {
            &&& new.current_key() == key
            &&& new.key_queue() == old.key_queue().push(key->0)
            &&& new.modifiers() == old.modifiers()
            &&& new.mouse() == old.mouse()
        } else {
            new == old
        },
        WindowEvent::ModifiersChanged(m) => {
            &&& new.modifiers() == m
            &&& new.current_key() == old.current_key()
            &&& new.key_queue() == old.key_queue()
            &&& new.mouse() == old.mouse()
        },
        _ => new == old,
    }
}

/// Routes a window event: closing asks to exit, resizing asks for a new swapchain, a named
/// key that goes down is handed to the input manager, and a change of modifiers is recorded.
pub fn handle_window_event(input: &mut InputManager, event: &WindowEvent) -> (action: WindowAction)
    ensures
        action == window_event_action(*event),
        window_event_applied(*old(input), *final(input), *event),
{
    match event {
        WindowEvent::CloseRequested => WindowAction::Exit,
        WindowEvent::Resized => WindowAction::RecreateSwapchain,
        WindowEvent::KeyboardInput { key, state } => {
            match (key, state) {
                (Some(code), ElementState::Pressed) => {
                    input.handle_key_input(Some(*code));
                },
                _ => {},
            }
            WindowAction::Nothing
        },
        WindowEvent::ModifiersChanged(m) => {
            input.handle_modifier_change(*m);
            WindowAction::Nothing
        },
        _ => WindowAction::Nothing,
    }
}

/// An event of an input device. Mouse motion and wheel events carry fractional deltas, which
/// the front end records itself.
pub enum DeviceEvent {
    Button { button: u32, state: ElementState },
    MouseMotion,
    MouseWheel,
    Added,
    Removed,
    Other,
}

/// Whether a device event can be handed to the input manager: a mouse button event names
/// one of the three buttons.
pub open spec fn device_event_ok(event: DeviceEvent) -> bool {
    match event {
        DeviceEvent::Button { button, .. } => 1 <= button <= 3,
        _ => true,
    }
}

/// Whether `new` is the input manager `old` after device event `event`: a mouse button
/// event presses or releases that button; any other event changes nothing.
pub open spec fn device_event_applied(old: InputManager, new: InputManager, event: DeviceEvent) -> bool {
    match event {
        DeviceEvent::Button { button, state } => {
            &&& state == ElementState::Pressed ==> crate::input::pressed(
                old.mouse(),
                new.mouse(),
                button - 1,
            )
            &&& state == ElementState::Released ==> crate::input::released(
                old.mouse(),
                new.mouse(),
                button - 1,
            )
            &&& new.modifiers() == old.modifiers()
            &&& new.current_key() == old.current_key()
            &&& new.key_queue() == old.key_queue()
        },
        _ => new == old,
    }
}

/// Routes a device event: a mouse button event is handed to the input manager.
pub fn handle_device_event(input: &mut InputManager, event: &DeviceEvent)
    requires
        device_event_ok(*event),
    ensures
        device_event_applied(*old(input), *final(input), *event),
{
    match event {
        DeviceEvent::Button { button, state } => {
            input.handle_mouse_button(*button, *state);
        },
        _ => {},
    }
}

/// An event of the event loop.
pub enum Event {
    /// A window event; `consumed` tells whether the interface took it.
    Window { event: WindowEvent, consumed: bool },
    Device(DeviceEvent),
    MainEventsCleared,
    Other,
}

/// What the application does after an event: whether to draw a frame, and what the window
/// asks for.
pub struct EventResponse {
    pub render: bool,
    pub action: WindowAction,
}

/// Routes an event of the event loop: window events the interface did not take go to
/// `handle_window_event`, device events to `handle_device_event`, and the end of the event
/// batch asks for a frame.
pub fn handle_event(input: &mut InputManager, event: &Event) -> (r: EventResponse)
    requires
        match *event {
            Event::Device(d) => device_event_ok(d),
            _ => true,
        },
    ensures
        r.render == (*event is MainEventsCleared),
        match *event {
            Event::Window { event: w, consumed } => if consumed {
                r.action == WindowAction::Nothing && *final(input) == *old(input)
            } else {
                r.action == window_event_action(w) && window_event_applied(*old(input), *final(input), w)
            },
            Event::Device(d) => r.action == WindowAction::Nothing && device_event_applied(
                *old(input),
                *final(input),
                d,
            ),
            _ => r.action == WindowAction::Nothing && *final(input) == *old(input),
        },
{
    match event {
        Event::Window { event, consumed } => {
            let action = if !*consumed {
                handle_window_event(input, event)
            } else {
                WindowAction::Nothing
            };
            EventResponse { render: false, action }
        },
        Event::Device(event) => {
            handle_device_event(input, event);
            EventResponse { render: false, action: WindowAction::Nothing }
        },
        Event::MainEventsCleared => EventResponse { render: true, action: WindowAction::Nothing },
        Event::Other => EventResponse { render: false, action: WindowAction::Nothing },
    }
}


/// The states the application can be in: each knows the interface file of its scene and
/// lays its interface over a staged scene.
pub trait ApplicationState {
    fn init_schedule(&mut self);

    fn scene_interface_path(&self) -> &'static str;

    fn overlay_interface_on_staged_scene(&self, scene: &mut Scene<Staged>, current_nav_path: String)
        requires
            old(scene).world is Some,
            old(scene).world_view()->0.entities.len() + 2 <= u32::MAX,
    ;
}

/// The component types that the idle interface registers.
pub open spec fn idle_interface_components() -> Set<ComponentKind> {
    set![
        ComponentKind::AppInterfaceFlag,
        ComponentKind::MainMenuComponent,
        ComponentKind::DebugUiComponent,
        ComponentKind::FileSubMenuComponent,
        ComponentKind::CameraComponent,
        ComponentKind::InputComponent,
    ]
}

/// The component kinds of the interface entity of the idle state.
pub open spec fn interface_entity_components() -> Seq<ComponentKind> {
    seq![
        ComponentKind::AppInterfaceFlag,
        ComponentKind::MainMenuComponent,
        ComponentKind::DebugUiComponent,
        ComponentKind::FileSubMenuComponent,
    ]
}

/// The components of the interface entity of the idle state: the interface marker, the main
/// menu (without an interface handle), the debug switches both off, and the file menu with
/// its windows closed, browsing `current_nav_path`, with no text typed.
pub open spec fn interface_entity_values(current_nav_path: Seq<char>) -> Seq<ComponentData> {
    seq![
        ComponentData::Other(ComponentKind::AppInterfaceFlag),
        ComponentData::Other(ComponentKind::MainMenuComponent),
        ComponentData::DebugUi { show_profiler: false, terrain_wireframe: false },
        ComponentData::FileSubMenu {
            new_project_window: false,
            open_project_window: false,
            current_nav_path,
            text_entry: Seq::empty(),
        },
    ]
}

/// The component kinds of the camera entity of the idle state.
pub open spec fn camera_entity_components() -> Seq<ComponentKind> {
    seq![ComponentKind::CameraComponent, ComponentKind::TransformComponent, ComponentKind::InputComponent]
}

/// The components of the camera entity of the idle state: the camera and its transform
/// (whose values are floating point) and an input component with no keys.
pub open spec fn camera_entity_values() -> Seq<ComponentData> {
    seq![
        ComponentData::Other(ComponentKind::CameraComponent),
        ComponentData::Other(ComponentKind::TransformComponent),
        ComponentData::Input { key_buffer: Seq::empty() },
    ]
}

/// `w` with the idle interface laid over it: its resources initialised (present ones are
/// kept), its component types registered in the shared type registry, and two new entities,
/// the interface, whose file menu browses `current_nav_path`, and the camera.
pub open spec fn with_idle_interface(w: WorldView, current_nav_path: Seq<char>) -> WorldView {
    let w1 = w.init(ResourceKind::Other(OtherResource::SaveEvents)).init(
        ResourceKind::TypeRegistryArc,
    ).init(ResourceKind::MessagePump).init(
        ResourceKind::Other(OtherResource::CreateProjectEvents),
    ).init(ResourceKind::Other(OtherResource::CloseProjectEvents)).init(
        ResourceKind::Other(OtherResource::OpenProjectEvents),
    ).init(ResourceKind::Other(OtherResource::MainMenuMessages)).init(
        ResourceKind::Other(OtherResource::FileSubMenuMessages),
    );
    let w2 = w1.with_type_registry_arc(w1.type_registry_arc->0.union(idle_interface_components()));
    WorldView {
        entities: w2.entities.push(interface_entity_components()).push(camera_entity_components()),
        components: w2.components.push(interface_entity_values(current_nav_path)).push(
            camera_entity_values(),
        ),
        ..w2
    }
}

/// Laying the idle interface over a world registers in its shared type registry, beside the
/// types it knew, exactly the interface marker, the main menu, the debug switches, the file
/// menu, the camera and the input component; so every component of the two new entities is
/// registered except the camera's transform.
pub proof fn lemma_idle_interface_registry(w: WorldView, current_nav_path: Seq<char>)
    ensures
        with_idle_interface(w, current_nav_path).type_registry_arc == Some(
            (if w.type_registry_arc is Some {
                w.type_registry_arc->0
            } else {
                Set::<ComponentKind>::empty()
            }).union(
                set![
                    ComponentKind::AppInterfaceFlag,
                    ComponentKind::MainMenuComponent,
                    ComponentKind::DebugUiComponent,
                    ComponentKind::CameraComponent,
                    ComponentKind::FileSubMenuComponent,
                    ComponentKind::InputComponent,
                ],
            ),
        ),
        ({
            let r = with_idle_interface(w, current_nav_path);
            let n = w.entities.len() as int;
            &&& r.entities.len() == n + 2
            &&& forall|k: ComponentKind|
                #[trigger] r.entities[n].contains(k) ==> r.type_registry_arc->0.contains(k)
            &&& forall|k: ComponentKind|
                r.entities[n + 1].contains(k) && k != ComponentKind::TransformComponent
                    ==> #[trigger] r.type_registry_arc->0.contains(k)
        }),
{
    let r = with_idle_interface(w, current_nav_path);
    let n = w.entities.len() as int;
    let base = if w.type_registry_arc is Some {
        w.type_registry_arc->0
    } else {
        Set::<ComponentKind>::empty()
    };
    let lit = set![
        ComponentKind::AppInterfaceFlag,
        ComponentKind::MainMenuComponent,
        ComponentKind::DebugUiComponent,
        ComponentKind::CameraComponent,
        ComponentKind::FileSubMenuComponent,
        ComponentKind::InputComponent,
    ];
    assert(r.type_registry_arc->0 =~= base.union(lit));
    assert(r.entities[n] == interface_entity_components());
    assert(r.entities[n + 1] == camera_entity_components());
    assert forall|k: ComponentKind| #[trigger] r.entities[n].contains(k) implies r.type_registry_arc->0.contains(k) by {
        let i = r.entities[n].index_of(k);
        assert(0 <= i < 4);
    }
    assert forall|k: ComponentKind|
        r.entities[n + 1].contains(k) && k != ComponentKind::TransformComponent
            implies #[trigger] r.type_registry_arc->0.contains(k) by {
        let i = r.entities[n + 1].index_of(k);
        assert(0 <= i < 3);
    }
}

/// The idle interface's new entities start in their resting state: the interface entity's
/// debug switches are off, its file menu has both windows closed and no text typed and
/// browses `current_nav_path`, and the camera entity's input component holds no key. Each
/// component comes once, with a value of its own kind.
pub proof fn lemma_idle_interface_values(w: WorldView, current_nav_path: Seq<char>)
    requires
        w.aligned(),
    ensures
        ({
            let r = with_idle_interface(w, current_nav_path);
            let n = w.entities.len() as int;
            &&& r.aligned()
            &&& r.entities[n].no_duplicates()
            &&& r.entities[n + 1].no_duplicates()
            &&& forall|i: int|
                0 <= i < r.entities[n].len() && #[trigger] r.entities[n][i] == ComponentKind::DebugUiComponent
                    ==> r.components[n][i] == (ComponentData::DebugUi {
                    show_profiler: false,
                    terrain_wireframe: false,
                })
            &&& forall|i: int|
                0 <= i < r.entities[n].len() && #[trigger] r.entities[n][i] == ComponentKind::FileSubMenuComponent
                    ==> r.components[n][i] == (ComponentData::FileSubMenu {
                    new_project_window: false,
                    open_project_window: false,
                    current_nav_path,
                    text_entry: Seq::empty(),
                })
            &&& forall|i: int|
                0 <= i < r.entities[n + 1].len() && #[trigger] r.entities[n + 1][i] == ComponentKind::InputComponent
                    ==> r.components[n + 1][i] == (ComponentData::Input { key_buffer: Seq::empty() })
        }),
{
    let r = with_idle_interface(w, current_nav_path);
    let n = w.entities.len() as int;
    assert(r.entities[n] == interface_entity_components());
    assert(r.entities[n + 1] == camera_entity_components());
    assert(r.components[n] == interface_entity_values(current_nav_path));
    assert(r.components[n + 1] == camera_entity_values());
    assert(kinds_of(interface_entity_values(current_nav_path)) =~= interface_entity_components());
    assert(kinds_of(camera_entity_values()) =~= camera_entity_components());
    assert forall|i: int| 0 <= i < r.entities.len() implies kinds_of(#[trigger] r.components[i]) == r.entities[i] by {
        if i < n {
            assert(r.components[i] == w.components[i]);
            assert(r.entities[i] == w.entities[i]);
        }
    }
}

/// The state in which the application waits for a project to be opened.
pub struct ApplicationIdleState {
    pub schedule: Option<Schedule>,
    pub scene_interface_path: &'static str,
}

/// The state in which a project is being edited.
pub struct ApplicationEditorState {
    pub schedule: Option<Schedule>,
    pub scene_interface_path: &'static str,
}

/// The view of an optional schedule.
pub open spec fn opt_schedule_view(s: Option<Schedule>) -> Option<Seq<(StageLabel, SystemStageView)>> {
    match s {
        Some(s) => Some(s@),
        None => None,
    }
}

impl ApplicationIdleState {
    /// The idle state, without a schedule, whose interface file is `./idle_state.ron`.
    pub fn create() -> (s: Self)
        ensures
            s.schedule is None,
            s.scene_interface_path@ == "./idle_state.ron"@,
    {
        ApplicationIdleState { schedule: None, scene_interface_path: "./idle_state.ron" }
    }

    /// Runs the state's schedule on the scene's world through `executor`, and keeps the
    /// schedule.
    pub fn run_schedule<E: SystemExecutor>(&mut self, scene: &mut Scene<Active>, executor: &mut E)
        requires
            old(self).schedule is Some,
            old(scene).world is Some,
        ensures
            opt_schedule_view(final(self).schedule) == opt_schedule_view(old(self).schedule),
            final(self).scene_interface_path == old(self).scene_interface_path,
            final(scene).world_view() == Some(
                after_schedule(*old(executor), old(self).schedule->0@, old(scene).world_view()->0),
            ),
            same_steps(*final(executor), *old(executor)),
            final(scene).state == old(scene).state,
    {
        let schedule = self.schedule.take().unwrap();
        let mut world = scene.world.take().unwrap();
        schedule.run(&mut world, executor);
        scene.world = Some(world);
        self.schedule = Some(schedule);
    }
}

impl ApplicationState for ApplicationIdleState {
    /// Gives the state an empty schedule.
    fn init_schedule(&mut self)
        ensures
            opt_schedule_view(final(self).schedule) == Some(Seq::<(StageLabel, SystemStageView)>::empty()),
            final(self).scene_interface_path == old(self).scene_interface_path,
    {
        self.schedule = Some(Schedule::default());
    }

    /// The path of the state's interface file.
    fn scene_interface_path(&self) -> (p: &'static str)
        ensures
            p == self.scene_interface_path,
    {
        self.scene_interface_path
    }

    /// Lays the idle interface over the staged scene's world, as `with_idle_interface`
    /// describes; the file menu browses `current_nav_path`.
    fn overlay_interface_on_staged_scene(&self, scene: &mut Scene<Staged>, current_nav_path: String)
        ensures
            final(scene).state == old(scene).state,
            final(scene).world_view() == Some(
                with_idle_interface(old(scene).world_view()->0, current_nav_path@),
            ),
    {
        let ghost nav = current_nav_path@;
        let mut world = scene.world.take().unwrap();
        let ghost w0 = world@;
        world.init_resource(ResourceKind::Other(OtherResource::SaveEvents));
        world.init_resource(ResourceKind::TypeRegistryArc);
        world.init_resource(ResourceKind::MessagePump);
        world.init_resource(ResourceKind::Other(OtherResource::CreateProjectEvents));
        world.init_resource(ResourceKind::Other(OtherResource::CloseProjectEvents));
        world.init_resource(ResourceKind::Other(OtherResource::OpenProjectEvents));
        world.init_resource(ResourceKind::Other(OtherResource::MainMenuMessages));
        world.init_resource(ResourceKind::Other(OtherResource::FileSubMenuMessages));
        let ghost w1 = world@;
        world.register_component_arc(ComponentKind::AppInterfaceFlag);
        world.register_component_arc(ComponentKind::MainMenuComponent);
        world.register_component_arc(ComponentKind::DebugUiComponent);
        world.register_component_arc(ComponentKind::FileSubMenuComponent);
        world.register_component_arc(ComponentKind::CameraComponent);
        world.register_component_arc(ComponentKind::InputComponent);
        let ghost w2 = world@;
        proof {
            assert(w2.type_registry_arc->0 =~= w1.type_registry_arc->0.union(idle_interface_components()));
        }
        proof {
            world.lemma_view_aligned();
        }
        let interface = world.spawn();
        let ghost wi = world@;
        world.insert_component(interface, Component::Other(ComponentKind::AppInterfaceFlag));
        proof {
            assert(world@.entities[interface as int] =~= seq![ComponentKind::AppInterfaceFlag]);
            assert(world@.components[interface as int] =~= seq![ComponentData::Other(ComponentKind::AppInterfaceFlag)]);
        }
        world.insert_component(interface, Component::Other(ComponentKind::MainMenuComponent));
        proof {
            assert(world@.entities[interface as int] =~= seq![
                ComponentKind::AppInterfaceFlag,
                ComponentKind::MainMenuComponent,
            ]);
        }
        world.insert_component(interface, Component::DebugUi(DebugUiComponent::create()));
        proof {
            assert(world@.entities[interface as int] =~= seq![
                ComponentKind::AppInterfaceFlag,
                ComponentKind::MainMenuComponent,
                ComponentKind::DebugUiComponent,
            ]);
        }
        world.insert_component(interface, Component::FileSubMenu(FileSubMenuComponent::new(current_nav_path)));
        proof {
            assert(world@.entities[interface as int] =~= interface_entity_components());
            assert(world@.components[interface as int] =~= interface_entity_values(nav));
            assert(world@.entities =~= w2.entities.push(interface_entity_components()));
            assert(world@.components =~= w2.components.push(interface_entity_values(nav)));
        }
        let ghost w3 = world@;
        proof {
            world.lemma_view_aligned();
        }
        let camera = world.spawn();
        let ghost wc = world@;
        world.insert_component(camera, Component::Other(ComponentKind::CameraComponent));
        proof {
            assert(world@.entities[camera as int] =~= seq![ComponentKind::CameraComponent]);
        }
        world.insert_component(camera, Component::Other(ComponentKind::TransformComponent));
        proof {
            assert(world@.entities[camera as int] =~= seq![
                ComponentKind::CameraComponent,
                ComponentKind::TransformComponent,
            ]);
        }
        world.insert_component(camera, Component::Input(InputComponent::create()));
        proof {
            assert(world@.entities[camera as int] =~= camera_entity_components());
            assert(world@.components[camera as int] =~= camera_entity_values());
            assert(world@.entities =~= w3.entities.push(camera_entity_components()));
            assert(world@.components =~= w3.components.push(camera_entity_values()));
            assert(world@ == with_idle_interface(w0, nav));
        }
        scene.world = Some(world);
    }
}

} // verus!
