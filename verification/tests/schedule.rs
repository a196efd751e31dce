use ember::components::{Component, ComponentKind};
use ember::schedule::{InertExecutor, Schedule, StageLabel, SystemExecutor, SystemKind, SystemStage};
use ember::world::{World, WorldView};

struct Recorder {
    ran: Vec<SystemKind>,
}

impl SystemExecutor for Recorder {
    /// Running a system here leaves the world as it is.
    fn step(&self, _system: SystemKind, w: WorldView) -> WorldView {
        w
    }

    fn run_system(&mut self, system: SystemKind, _world: &mut World) {
        self.ran.push(system);
    }
}

#[test]
fn stage_after_goes_right_after_its_target() {
    let mut s = Schedule::new();
    s.add_stage(StageLabel::CameraMove, SystemStage::parallel().with_system(SystemKind::CameraMoveSystem));
    s.add_stage(StageLabel::PreUi, SystemStage::single_threaded().with_system(SystemKind::PanelInitSystem));
    s.add_stage_after(StageLabel::CameraMove, StageLabel::Main, SystemStage::single_threaded().with_system(SystemKind::RenderableDrawSystem));
    assert!(s.contains_label(StageLabel::Main));
    assert!(!s.contains_label(StageLabel::Ui));
    let mut r = Recorder { ran: Vec::new() };
    let mut world = World::new();
    s.run(&mut world, &mut r);
    assert_eq!(r.ran, vec![SystemKind::CameraMoveSystem, SystemKind::RenderableDrawSystem, SystemKind::PanelInitSystem]);
}

#[test]
fn default_schedule_runs_nothing() {
    let s = Schedule::default();
    let mut r = Recorder { ran: Vec::new() };
    let mut world = World::new();
    s.run(&mut world, &mut r);
    assert!(r.ran.is_empty());
    let stage = SystemStage::parallel().with_system(SystemKind::TerrainUiSystem);
    assert_eq!(stage.systems(), &vec![SystemKind::TerrainUiSystem]);
}

#[test]
fn system_order_lists_stages_then_their_systems() {
    let mut s = Schedule::new();
    s.add_stage(
        StageLabel::GeometryInit,
        SystemStage::parallel()
            .with_system(SystemKind::GeometryInitializerSystem)
            .with_system(SystemKind::TerrainInitSystem),
    );
    s.add_stage(StageLabel::FinalInit, SystemStage::parallel().with_system(SystemKind::CameraInitSystem));
    s.add_stage_after(
        StageLabel::GeometryInit,
        StageLabel::UiInit,
        SystemStage::parallel().with_system(SystemKind::InitializeEditorInterface),
    );
    assert_eq!(
        s.system_order(),
        vec![
            SystemKind::GeometryInitializerSystem,
            SystemKind::TerrainInitSystem,
            SystemKind::InitializeEditorInterface,
            SystemKind::CameraInitSystem,
        ]
    );
}

#[test]
fn inert_executor_leaves_the_world_as_it_is() {
    let mut s = Schedule::new();
    s.add_stage(StageLabel::CameraMove, SystemStage::parallel().with_system(SystemKind::CameraMoveSystem));
    let mut world = World::new();
    let e = world.spawn();
    world.insert_component(e, Component::Other(ComponentKind::CameraComponent));
    let mut executor = InertExecutor;
    s.run(&mut world, &mut executor);
    assert_eq!(world.entity_count(), 1);
    assert_eq!(world.entity_components(e), vec![ComponentKind::CameraComponent]);
}
