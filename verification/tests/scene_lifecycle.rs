use ember::components::ComponentKind;
use ember::events::SceneManagerMessage;
use ember::scene::{Inactive, Scene, Staged};
use ember::schedule::{StageLabel, SystemExecutor, SystemKind};
use ember::world::{OtherResource, ResourceKind, World, WorldView};

struct Recorder {
    ran: Vec<SystemKind>,
}

impl SystemExecutor for Recorder {
    /// Running a system here leaves the world as it is.
    fn step(&self, _system: SystemKind, w: WorldView) -> WorldView {
        w
    }

    fn run_system(&mut self, system: SystemKind, _world: &mut World) {
        self.ran.push(system);
    }
}

#[test]
fn staged_scene_holds_its_resources_and_registry() {
    let scene = Scene::<Staged>::new();
    let world = scene.world.as_ref().unwrap();
    assert!(world.contains_resource(ResourceKind::MessagePump));
    assert!(world.contains_resource(ResourceKind::TypeRegistry));
    assert!(!world.contains_resource(ResourceKind::TypeRegistryArc));
    assert!(world.contains_resource(ResourceKind::Other(OtherResource::SaveEvents)));
    assert!(world.contains_resource(ResourceKind::Other(OtherResource::TerrainRecalculateEvents)));
    assert!(!world.contains_resource(ResourceKind::KeyInputQueue));
    let registry = world.type_registry().unwrap();
    assert!(registry.contains(ComponentKind::CameraComponent));
    assert!(registry.contains(ComponentKind::GeometryType));
    assert!(!registry.contains(ComponentKind::MainMenuComponent));
    assert_eq!(registry.kinds().len(), 13);
    assert_eq!(world.entity_count(), 0);
}

#[test]
fn setup_schedule_runs_its_systems_in_stage_order() {
    let mut scene = Scene::<Staged>::new();
    let mut recorder = Recorder { ran: Vec::new() };
    scene.run_setup_schedule(&mut recorder);
    assert_eq!(
        recorder.ran,
        vec![
            SystemKind::InitializeEditorInterface,
            SystemKind::GeometryInitializerSystem,
            SystemKind::TerrainInitSystem,
            SystemKind::CameraInitSystem,
            SystemKind::RenderableInitializerSystem,
        ]
    );
    assert!(scene.state.setup_schedule.is_some());
}

#[test]
fn activation_runs_setup_and_builds_the_render_schedule() {
    let scene = Scene::<Staged>::new();
    let mut recorder = Recorder { ran: Vec::new() };
    let mut active = scene.activate(&mut recorder);
    assert_eq!(recorder.ran.len(), 5);
    assert!(!active.state.device_loaded);
    assert!(active.world.is_some());
    assert!(active.contains_resource(ResourceKind::MessagePump));
    let render = active.state.render_schedule.as_ref().unwrap();
    assert!(render.contains_label(StageLabel::Main));
    let mut render_recorder = Recorder { ran: Vec::new() };
    active.run_render_schedule(&mut render_recorder);
    assert_eq!(
        render_recorder.ran,
        vec![
            SystemKind::CameraMoveSystem,
            SystemKind::CameraUpdateSystem,
            SystemKind::RenderableDrawSystem,
            SystemKind::DirectionalLightingSystem,
            SystemKind::AmbientLightingSystem,
            SystemKind::TerrainDrawSystem,
            SystemKind::RenderableAssemblyStateModifierSystem,
            SystemKind::TerrainAssemblyStateModifierSystem,
            SystemKind::PanelInitSystem,
            SystemKind::TerrainUiSystem,
            SystemKind::CameraUiSystem,
            SystemKind::FileSubMenuSystem,
            SystemKind::ShowNewProjectWindow,
            SystemKind::ShowOpenProjectWindow,
            SystemKind::TransformUiSystem,
            SystemKind::SceneGraphUiSystem,
            SystemKind::EntityInspectionUiSystem,
            SystemKind::SceneSerializationSystem,
            SystemKind::TerrainUpdateSystem,
            SystemKind::ProjectCreationSystem,
            SystemKind::OpenProjectSystem,
        ]
    );
    let mut update_recorder = Recorder { ran: Vec::new() };
    active.run_update_schedule(&mut update_recorder);
    assert!(update_recorder.ran.is_empty());
}

#[test]
fn active_scene_keeps_its_world_when_staged_again() {
    let scene = Scene::<Staged>::new();
    let mut recorder = Recorder { ran: Vec::new() };
    let mut active = scene.activate(&mut recorder);
    assert!(active.world.as_mut().unwrap().send_message(SceneManagerMessage::CloseProject));
    let mut staged = active.into_staged(&mut recorder);
    assert!(staged.contains_resource(ResourceKind::MessagePump));
    assert!(staged.state.setup_schedule.is_some());
    assert!(staged.state.teardown_schedule.is_some());
    let messages = staged.world.as_mut().unwrap().take_messages().unwrap();
    assert_eq!(messages.len(), 1);
    let inactive = staged.into_inactive();
    assert!(inactive.world.is_none());
}

#[test]
fn inactive_scene_is_staged_with_an_empty_world() {
    let inactive = Scene::<Inactive>::new();
    assert!(inactive.world.is_none());
    let staged = inactive.into_staged();
    let world = staged.world.as_ref().unwrap();
    assert!(!world.contains_resource(ResourceKind::MessagePump));
    assert_eq!(world.entity_count(), 0);
    assert!(staged.state.setup_schedule.is_some());
}

#[test]
fn scene_without_world_ignores_inserted_resources() {
    let mut scene = Scene::<Staged> { world: None, state: ember::scene::Staged { setup_schedule: None, teardown_schedule: None } };
    scene.insert_resource(ember::world::Resource::Other(OtherResource::Device));
    assert!(scene.world.is_none());
    assert!(!scene.contains_resource(ResourceKind::Other(OtherResource::Device)));
}

#[test]
fn required_resources_give_an_empty_key_queue() {
    let scene = Scene::<Staged>::new();
    let mut recorder = Recorder { ran: Vec::new() };
    let mut active = scene.activate(&mut recorder);
    assert!(!active.contains_resource(ResourceKind::KeyInputQueue));
    active.insert_required_resources();
    assert!(active.contains_resource(ResourceKind::KeyInputQueue));
}
