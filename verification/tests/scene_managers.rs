use ember::events::SceneManagerMessage;
use ember::manager::Manager;
use ember::scene::{Active, Scene, Staged};
use ember::scene_manager::{
    SceneLoadOutcome, SceneManager, SceneManagerUpdateError, SceneManagerUpdateResults, UpdatePlan,
};
use ember::scene_registry::SceneManager as SceneRegistry;
use ember::schedule::{SystemExecutor, SystemKind};
use ember::world::{ResourceKind, World, WorldView};

struct Quiet;

impl SystemExecutor for Quiet {
    /// Running a system here leaves the world as it is.
    fn step(&self, _system: SystemKind, w: WorldView) -> WorldView {
        w
    }

    fn run_system(&mut self, _system: SystemKind, _world: &mut World) {}
}

fn manager_with_active_scene() -> SceneManager {
    let mut m = SceneManager::new();
    m.create_and_set_staged_scene();
    m.activate_staged_scene(&mut Quiet);
    m
}

fn send(m: &mut SceneManager, message: SceneManagerMessage) {
    let scene: &mut Scene<Active> = m.get_active_scene().unwrap();
    assert!(scene.world.as_mut().unwrap().send_message(message));
}

#[test]
fn update_without_active_scene_fails() {
    let mut m = SceneManager::new();
    assert!(matches!(m.begin_update(), Err(SceneManagerUpdateError::NoActiveScene)));
}

#[test]
fn update_without_world_fails() {
    let mut m = manager_with_active_scene();
    m.get_active_scene().unwrap().world = None;
    assert!(matches!(m.begin_update(), Err(SceneManagerUpdateError::NoWorldOnScene)));
}

#[test]
fn update_without_messages_changes_nothing() {
    let mut m = manager_with_active_scene();
    assert!(matches!(m.begin_update(), Ok(UpdatePlan::Finished(SceneManagerUpdateResults::NoUpdate))));
}

#[test]
fn close_project_is_an_unknown_message_and_is_dropped() {
    let mut m = manager_with_active_scene();
    send(&mut m, SceneManagerMessage::CloseProject);
    assert!(matches!(m.begin_update(), Err(SceneManagerUpdateError::UnknownMessageType)));
    assert!(matches!(m.begin_update(), Ok(UpdatePlan::Finished(SceneManagerUpdateResults::NoUpdate))));
}

#[test]
fn open_project_asks_for_the_scene_file_and_drops_later_messages() {
    let mut m = manager_with_active_scene();
    send(&mut m, SceneManagerMessage::OpenProject { path: "/home/p".to_string(), scene_name: "main.ron".to_string() });
    send(&mut m, SceneManagerMessage::CloseProject);
    match m.begin_update() {
        Ok(UpdatePlan::LoadScene { project_path, scene_path }) => {
            assert_eq!(project_path, "/home/p");
            assert_eq!(scene_path, "/home/p/scenes/main.ron");
        }
        _ => panic!("expected a scene file request"),
    }
    assert!(matches!(m.begin_update(), Ok(UpdatePlan::Finished(SceneManagerUpdateResults::NoUpdate))));
}

#[test]
fn failed_reads_and_parses_report_their_errors() {
    let mut m = manager_with_active_scene();
    assert!(matches!(m.finish_update(SceneLoadOutcome::ReadFailed, &mut Quiet), Err(SceneManagerUpdateError::RonReadError)));
    assert!(matches!(m.finish_update(SceneLoadOutcome::MetadataFailed, &mut Quiet), Err(SceneManagerUpdateError::DeserializationError)));
    assert!(matches!(m.finish_update(SceneLoadOutcome::DeserializeFailed, &mut Quiet), Err(SceneManagerUpdateError::DeserializationError)));
    assert!(m.get_active_scene().is_some());
}

#[test]
fn loaded_scene_replaces_the_active_scene_with_a_fresh_staged_one() {
    let mut m = manager_with_active_scene();
    assert!(matches!(m.finish_update(SceneLoadOutcome::Loaded, &mut Quiet), Ok(SceneManagerUpdateResults::NewSceneOpened)));
    assert!(m.get_active_scene().is_none());
    let staged: &mut Scene<Staged> = m.get_staged_scene();
    assert!(staged.contains_resource(ResourceKind::MessagePump));
    m.activate_staged_scene(&mut Quiet);
    assert!(m.get_active_scene().is_some());
}

#[test]
fn error_messages_match_the_errors() {
    assert_eq!(SceneManagerUpdateError::NoActiveScene.message(), "No active scene");
    assert_eq!(SceneManagerUpdateError::NoWorldOnScene.message(), "No world on current scene");
    assert_eq!(SceneManagerUpdateError::UnknownMessageType.message(), "Unknown scene manager message type");
    assert_eq!(SceneManagerUpdateError::RonReadError.message(), "Error reading ron scene");
    assert_eq!(SceneManagerUpdateError::DeserializationError.message(), "Error in constructing scene from ron file");
}

#[test]
fn registry_hands_out_increasing_ids() {
    let mut r = SceneRegistry::create_new();
    let a = r.generate_and_register_scene();
    let b = r.generate_and_register_scene();
    assert_eq!(a, 1);
    assert_eq!(b, 2);
    assert!(r.does_scene_exist(&1));
    assert!(r.does_scene_exist(&2));
    r.unregister_scene(1);
    assert!(!r.does_scene_exist(&1));
    assert_eq!(r.generate_and_register_scene(), 3);
}

#[test]
fn registry_stages_and_activates_a_scene() {
    let mut r = SceneRegistry::create_new();
    let id = r.generate_and_register_scene();
    r.stage_scene(id);
    assert!(!r.does_scene_exist(&id));
    assert!(r.get_staged_scene().world.is_some());
    r.activate_staged_scene(&mut Quiet);
    assert_eq!(r.get_active_scene_id(), Some(id));
    let other = r.generate_and_register_scene();
    r.stage_scene(other);
    assert!(r.does_scene_exist(&other));
}

#[test]
fn loading_an_interface_registers_and_stages_a_scene() {
    let mut r = SceneRegistry::create_new();
    r.load_scene_interface("./idle_state.ron");
    assert!(!r.does_scene_exist(&1));
    assert!(r.get_staged_scene().world.is_some());
    r.shutdown();
    assert!(r.get_active_scene_id().is_none());
}

#[test]
fn registry_shutdown_drops_stored_scenes() {
    let mut r = SceneRegistry::create_new();
    r.startup();
    r.generate_and_register_scene();
    r.generate_and_register_scene();
    r.shutdown();
    assert!(!r.does_scene_exist(&1));
    assert!(!r.does_scene_exist(&2));
}
