use vstd::prelude::*;

use std::collections::VecDeque;

use crate::components::ComponentKind;
use crate::schedule::{
    run_order, after_schedule, same_steps, stage_view, Schedule, StageExecutor, StageLabel, SystemExecutor,
    SystemKind, SystemStage, SystemStageView,
};
use crate::world::{OtherResource, Resource, ResourceKind, World, WorldView};

verus! {

/// A scene: a world, when it has one, and the state of its life cycle
/// (`Inactive`, `Staged` or `Active`).
pub struct Scene<S> {
    pub world: Option<World>,
    pub state: S,
}

/// The state of a scene that is shown and updated.
pub struct Active {
    pub device_loaded: bool,
    pub update_schedule: Option<Schedule>,
    pub render_schedule: Option<Schedule>,
    pub teardown_schedule: Option<Schedule>,
}

/// The state of a scene that is stored away, without a world.
pub struct Inactive;

/// The state of a scene that is being prepared to become active.
pub struct Staged {
    pub setup_schedule: Option<Schedule>,
    pub teardown_schedule: Option<Schedule>,
}

/// The view of an optional schedule.
pub open spec fn schedule_view(s: Option<Schedule>) -> Option<Seq<(StageLabel, SystemStageView)>> {
    match s {
        Some(s) => Some(s@),
        None => None,
    }
}

/// The setup schedule of a staged scene: the editor interface first, then the geometry,
/// then the camera and the renderables.
pub open spec fn setup_schedule_view() -> Seq<(StageLabel, SystemStageView)> {
    seq![
        (StageLabel::UiInit, stage_view(StageExecutor::Parallel, seq![SystemKind::InitializeEditorInterface])),
        (StageLabel::GeometryInit, stage_view(
            StageExecutor::Parallel,
            seq![SystemKind::GeometryInitializerSystem, SystemKind::TerrainInitSystem],
        )),
        (StageLabel::FinalInit, stage_view(
            StageExecutor::Parallel,
            seq![SystemKind::CameraInitSystem, SystemKind::RenderableInitializerSystem],
        )),
    ]
}

/// The render schedule of an active scene, in the order in which its stages run.
pub open spec fn render_schedule_view() -> Seq<(StageLabel, SystemStageView)> {
    seq![
        (StageLabel::CameraMove, stage_view(StageExecutor::Parallel, seq![SystemKind::CameraMoveSystem])),
        (StageLabel::CameraUpdate, stage_view(StageExecutor::Parallel, seq![SystemKind::CameraUpdateSystem])),
        (StageLabel::Main, stage_view(
            StageExecutor::SingleThreaded,
            seq![
                SystemKind::RenderableDrawSystem,
                SystemKind::DirectionalLightingSystem,
                SystemKind::AmbientLightingSystem,
                SystemKind::TerrainDrawSystem,
            ],
        )),
        (StageLabel::WireframeInputSystem, stage_view(
            StageExecutor::Parallel,
            seq![SystemKind::RenderableAssemblyStateModifierSystem],
        )),
        (StageLabel::AssemblyStateModifierSystem, stage_view(
            StageExecutor::Parallel,
            seq![SystemKind::TerrainAssemblyStateModifierSystem],
        )),
        (StageLabel::PreUi, stage_view(StageExecutor::SingleThreaded, seq![SystemKind::PanelInitSystem])),
        (StageLabel::Ui, stage_view(
            StageExecutor::SingleThreaded,
            seq![
                SystemKind::TerrainUiSystem,
                SystemKind::CameraUiSystem,
                SystemKind::FileSubMenuSystem,
                SystemKind::ShowNewProjectWindow,
                SystemKind::ShowOpenProjectWindow,
                SystemKind::TransformUiSystem,
                SystemKind::SceneGraphUiSystem,
                SystemKind::EntityInspectionUiSystem,
            ],
        )),
        (StageLabel::EventProcessing, stage_view(
            StageExecutor::Parallel,
            seq![
                SystemKind::SceneSerializationSystem,
                SystemKind::TerrainUpdateSystem,
                SystemKind::ProjectCreationSystem,
                SystemKind::OpenProjectSystem,
            ],
        )),
    ]
}

/// Whether system `s` draws into the frame or into the editor interface: the draw and
/// lighting systems and the interface systems, which must not run side by side.
pub open spec fn draws_into_frame(s: SystemKind) -> bool {
    s == SystemKind::RenderableDrawSystem || s == SystemKind::DirectionalLightingSystem || s
        == SystemKind::AmbientLightingSystem || s == SystemKind::TerrainDrawSystem || s
        == SystemKind::PanelInitSystem || s == SystemKind::TerrainUiSystem || s
        == SystemKind::CameraUiSystem || s == SystemKind::FileSubMenuSystem || s
        == SystemKind::ShowNewProjectWindow || s == SystemKind::ShowOpenProjectWindow || s
        == SystemKind::TransformUiSystem || s == SystemKind::SceneGraphUiSystem || s
        == SystemKind::EntityInspectionUiSystem
}

/// In the render schedule every stage that holds a system drawing into the frame or the
/// interface runs its systems one after the other, and so do the stages labelled `Main`,
/// `PreUi` and `Ui`.
pub proof fn lemma_render_drawing_stages_are_single_threaded()
    ensures
        forall|i: int, j: int|
            0 <= i < render_schedule_view().len() && 0 <= j < render_schedule_view()[i].1.systems.len()
                && draws_into_frame(#[trigger] render_schedule_view()[i].1.systems[j])
                ==> render_schedule_view()[i].1.executor == StageExecutor::SingleThreaded,
        forall|i: int|
            0 <= i < render_schedule_view().len() && (#[trigger] render_schedule_view()[i].0
                == StageLabel::Main || render_schedule_view()[i].0 == StageLabel::PreUi
                || render_schedule_view()[i].0 == StageLabel::Ui) ==> render_schedule_view()[i].1.executor
                == StageExecutor::SingleThreaded,
{
    let v = render_schedule_view();
    assert forall|i: int, j: int|
        0 <= i < v.len() && 0 <= j < v[i].1.systems.len() && draws_into_frame(#[trigger] v[i].1.systems[j])
            implies v[i].1.executor == StageExecutor::SingleThreaded by {
        assert(i == 0 || i == 1 || i == 2 || i == 3 || i == 4 || i == 5 || i == 6 || i == 7);
        if i == 0 || i == 1 || i == 3 || i == 4 {
            assert(j == 0);
        }
        if i == 7 {
            assert(j == 0 || j == 1 || j == 2 || j == 3);
        }
    }
    assert forall|i: int|
        0 <= i < v.len() && (#[trigger] v[i].0 == StageLabel::Main || v[i].0 == StageLabel::PreUi
            || v[i].0 == StageLabel::Ui) implies v[i].1.executor == StageExecutor::SingleThreaded by {
        assert(i == 0 || i == 1 || i == 2 || i == 3 || i == 4 || i == 5 || i == 6 || i == 7);
    }
}

/// The render schedule runs each of its systems once, in this order: the camera moves, then
/// is updated, then the scene is drawn and lit, then the wireframe and assembly toggles
/// apply, then the interface is laid out and drawn, and last the events are processed.
pub proof fn lemma_render_run_order()
    ensures
        run_order(render_schedule_view()) == seq![
            SystemKind::CameraMoveSystem,
            SystemKind::CameraUpdateSystem,
            SystemKind::RenderableDrawSystem,
            SystemKind::DirectionalLightingSystem,
            SystemKind::AmbientLightingSystem,
            SystemKind::TerrainDrawSystem,
            SystemKind::RenderableAssemblyStateModifierSystem,
            SystemKind::TerrainAssemblyStateModifierSystem,
            SystemKind::PanelInitSystem,
            SystemKind::TerrainUiSystem,
            SystemKind::CameraUiSystem,
            SystemKind::FileSubMenuSystem,
            SystemKind::ShowNewProjectWindow,
            SystemKind::ShowOpenProjectWindow,
            SystemKind::TransformUiSystem,
            SystemKind::SceneGraphUiSystem,
            SystemKind::EntityInspectionUiSystem,
            SystemKind::SceneSerializationSystem,
            SystemKind::TerrainUpdateSystem,
            SystemKind::ProjectCreationSystem,
            SystemKind::OpenProjectSystem,
        ],
        run_order(render_schedule_view()).no_duplicates(),
{
    let v = render_schedule_view();
    reveal_with_fuel(run_order, 9);
    assert(v.drop_last().drop_last().drop_last().drop_last().drop_last().drop_last().drop_last().drop_last() =~= Seq::<(StageLabel, SystemStageView)>::empty());
    assert(run_order(v) =~= seq![
        SystemKind::CameraMoveSystem,
        SystemKind::CameraUpdateSystem,
        SystemKind::RenderableDrawSystem,
        SystemKind::DirectionalLightingSystem,
        SystemKind::AmbientLightingSystem,
        SystemKind::TerrainDrawSystem,
        SystemKind::RenderableAssemblyStateModifierSystem,
        SystemKind::TerrainAssemblyStateModifierSystem,
        SystemKind::PanelInitSystem,
        SystemKind::TerrainUiSystem,
        SystemKind::CameraUiSystem,
        SystemKind::FileSubMenuSystem,
        SystemKind::ShowNewProjectWindow,
        SystemKind::ShowOpenProjectWindow,
        SystemKind::TransformUiSystem,
        SystemKind::SceneGraphUiSystem,
        SystemKind::EntityInspectionUiSystem,
        SystemKind::SceneSerializationSystem,
        SystemKind::TerrainUpdateSystem,
        SystemKind::ProjectCreationSystem,
        SystemKind::OpenProjectSystem,
    ]);
}

/// The setup schedule first initialises the editor interface, then the geometry and the
/// terrain, and last the camera and the renderables, each once.
pub proof fn lemma_setup_run_order()
    ensures
        run_order(setup_schedule_view()) == seq![
            SystemKind::InitializeEditorInterface,
            SystemKind::GeometryInitializerSystem,
            SystemKind::TerrainInitSystem,
            SystemKind::CameraInitSystem,
            SystemKind::RenderableInitializerSystem,
        ],
{
    let v = setup_schedule_view();
    reveal_with_fuel(run_order, 4);
    assert(v.drop_last().drop_last().drop_last() =~= Seq::<(StageLabel, SystemStageView)>::empty());
    assert(run_order(v) =~= seq![
        SystemKind::InitializeEditorInterface,
        SystemKind::GeometryInitializerSystem,
        SystemKind::TerrainInitSystem,
        SystemKind::CameraInitSystem,
        SystemKind::RenderableInitializerSystem,
    ]);
}

/// Builds the setup schedule.
fn build_setup_schedule() -> (s: Schedule)
    ensures
        s@ == setup_schedule_view(),
{
    let mut schedule = Schedule::new();
    schedule.add_stage(
        StageLabel::UiInit,
        SystemStage::parallel().with_system(SystemKind::InitializeEditorInterface),
    );
    schedule.add_stage(
        StageLabel::GeometryInit,
        SystemStage::parallel().with_system(SystemKind::GeometryInitializerSystem).with_system(
            SystemKind::TerrainInitSystem,
        ),
    );
    schedule.add_stage(
        StageLabel::FinalInit,
        SystemStage::parallel().with_system(SystemKind::CameraInitSystem).with_system(
            SystemKind::RenderableInitializerSystem,
        ),
    );
    proof {
        assert(schedule@ =~~= setup_schedule_view());
    }
    schedule
}

/// Builds the render schedule.
fn build_render_schedule() -> (s: Schedule)
    ensures
        s@ == render_schedule_view(),
{
    let mut schedule = Schedule::new();
    schedule.add_stage(
        StageLabel::CameraMove,
        SystemStage::parallel().with_system(SystemKind::CameraMoveSystem),
    );
    proof {
        assert(schedule.labels() =~= seq![StageLabel::CameraMove]);
        assert(schedule.labels()[0] == StageLabel::CameraMove);
        assert(schedule.labels().index_of(StageLabel::CameraMove) == 0);
    }
    schedule.add_stage_after(
        StageLabel::CameraMove,
        StageLabel::CameraUpdate,
        SystemStage::parallel().with_system(SystemKind::CameraUpdateSystem),
    );
    proof {
        assert(schedule.labels() =~= seq![StageLabel::CameraMove, StageLabel::CameraUpdate]);
    }
    schedule.add_stage(
        StageLabel::WireframeInputSystem,
        SystemStage::parallel().with_system(SystemKind::RenderableAssemblyStateModifierSystem),
    );
    schedule.add_stage(
        StageLabel::AssemblyStateModifierSystem,
        SystemStage::parallel().with_system(SystemKind::TerrainAssemblyStateModifierSystem),
    );
    proof {
        assert(schedule.labels() =~= seq![
            StageLabel::CameraMove,
            StageLabel::CameraUpdate,
            StageLabel::WireframeInputSystem,
            StageLabel::AssemblyStateModifierSystem,
        ]);
        assert(schedule.labels()[1] == StageLabel::CameraUpdate);
        assert(schedule.labels().index_of(StageLabel::CameraUpdate) == 1);
    }
    schedule.add_stage_after(
        StageLabel::CameraUpdate,
        StageLabel::Main,
        SystemStage::single_threaded().with_system(SystemKind::RenderableDrawSystem).with_system(
            SystemKind::DirectionalLightingSystem,
        ).with_system(SystemKind::AmbientLightingSystem).with_system(SystemKind::TerrainDrawSystem),
    );
    schedule.add_stage(
        StageLabel::PreUi,
        SystemStage::single_threaded().with_system(SystemKind::PanelInitSystem),
    );
    proof {
        assert(schedule.labels() =~= seq![
            StageLabel::CameraMove,
            StageLabel::CameraUpdate,
            StageLabel::Main,
            StageLabel::WireframeInputSystem,
            StageLabel::AssemblyStateModifierSystem,
            StageLabel::PreUi,
        ]);
        assert(schedule.labels()[5] == StageLabel::PreUi);
        assert(schedule.labels().index_of(StageLabel::PreUi) == 5);
    }
    schedule.add_stage_after(
        StageLabel::PreUi,
        StageLabel::Ui,
        SystemStage::single_threaded().with_system(SystemKind::TerrainUiSystem).with_system(
            SystemKind::CameraUiSystem,
        ).with_system(SystemKind::FileSubMenuSystem).with_system(
            SystemKind::ShowNewProjectWindow,
        ).with_system(SystemKind::ShowOpenProjectWindow).with_system(
            SystemKind::TransformUiSystem,
        ).with_system(SystemKind::SceneGraphUiSystem).with_system(
            SystemKind::EntityInspectionUiSystem,
        ),
    );
    proof {
        assert(schedule.labels() =~= seq![
            StageLabel::CameraMove,
            StageLabel::CameraUpdate,
            StageLabel::Main,
            StageLabel::WireframeInputSystem,
            StageLabel::AssemblyStateModifierSystem,
            StageLabel::PreUi,
            StageLabel::Ui,
        ]);
        assert(schedule.labels()[6] == StageLabel::Ui);
        assert(schedule.labels().index_of(StageLabel::Ui) == 6);
    }
    schedule.add_stage_after(
        StageLabel::Ui,
        StageLabel::EventProcessing,
        SystemStage::parallel().with_system(SystemKind::SceneSerializationSystem).with_system(
            SystemKind::TerrainUpdateSystem,
        ).with_system(SystemKind::ProjectCreationSystem).with_system(
            SystemKind::OpenProjectSystem,
        ),
    );
    proof {
        assert(schedule@ =~~= render_schedule_view());
    }
    schedule
}


/// The component types that a staged scene's type registry is given.
pub open spec fn staged_scene_components() -> Set<ComponentKind> {
    set![
        ComponentKind::AppInterfaceFlag,
        ComponentKind::DebugUiComponent,
        ComponentKind::FileSubMenuComponent,
        ComponentKind::TerrainComponent,
        ComponentKind::TransformComponent,
        ComponentKind::TerrainUiComponent,
        ComponentKind::RenderableComponent,
        ComponentKind::GeometryType,
        ComponentKind::GeometryComponent,
        ComponentKind::DirectionalLightComponent,
        ComponentKind::AmbientLightingComponent,
        ComponentKind::CameraComponent,
        ComponentKind::InputComponent,
    ]
}

/// `w` with the resources of a staged scene initialised (present ones are kept) and the
/// staged scene's component types registered in its type registry.
pub open spec fn with_staged_resources(w: WorldView) -> WorldView {
    let w1 = w.init(ResourceKind::Other(OtherResource::SaveEvents)).init(
        ResourceKind::TypeRegistry,
    ).init(ResourceKind::MessagePump).init(
        ResourceKind::Other(OtherResource::CreateProjectEvents),
    ).init(ResourceKind::Other(OtherResource::CloseProjectEvents)).init(
        ResourceKind::Other(OtherResource::OpenProjectEvents),
    ).init(ResourceKind::Other(OtherResource::FileSubMenuMessages)).init(
        ResourceKind::Other(OtherResource::TerrainRecalculateEvents),
    );
    w1.with_type_registry(w1.type_registry->0.union(staged_scene_components()))
}

/// Staging a world gives its type registry exactly the staged scene's component types beside
/// any it knew: the interface marker, the debug switches, the file menu, the terrain and its
/// interface marker, the transform, the renderable, the geometry type and geometry, the two
/// lights, the camera and the input component. A new staged scene's registry knows exactly
/// these thirteen types.
pub proof fn lemma_staged_registry(w: WorldView)
    ensures
        with_staged_resources(w).type_registry == Some(
            (if w.type_registry is Some {
                w.type_registry->0
            } else {
                Set::<ComponentKind>::empty()
            }).union(
                set![
                    ComponentKind::AppInterfaceFlag,
                    ComponentKind::DebugUiComponent,
                    ComponentKind::FileSubMenuComponent,
                    ComponentKind::TerrainComponent,
                    ComponentKind::TerrainUiComponent,
                    ComponentKind::TransformComponent,
                    ComponentKind::RenderableComponent,
                    ComponentKind::GeometryType,
                    ComponentKind::GeometryComponent,
                    ComponentKind::DirectionalLightComponent,
                    ComponentKind::AmbientLightingComponent,
                    ComponentKind::CameraComponent,
                    ComponentKind::InputComponent,
                ],
            ),
        ),
        forall|k: ComponentKind|
            #[trigger] with_staged_resources(WorldView::empty()).type_registry->0.contains(k) <==> (k
                == ComponentKind::AppInterfaceFlag || k == ComponentKind::DebugUiComponent || k
                == ComponentKind::FileSubMenuComponent || k == ComponentKind::TerrainComponent || k
                == ComponentKind::TransformComponent || k == ComponentKind::TerrainUiComponent || k
                == ComponentKind::RenderableComponent || k == ComponentKind::GeometryType || k
                == ComponentKind::GeometryComponent || k == ComponentKind::DirectionalLightComponent
                || k == ComponentKind::AmbientLightingComponent || k == ComponentKind::CameraComponent
                || k == ComponentKind::InputComponent),
{
    let base = if w.type_registry is Some {
        w.type_registry->0
    } else {
        Set::<ComponentKind>::empty()
    };
    let lit = set![
        ComponentKind::AppInterfaceFlag,
        ComponentKind::DebugUiComponent,
        ComponentKind::FileSubMenuComponent,
        ComponentKind::TerrainComponent,
        ComponentKind::TerrainUiComponent,
        ComponentKind::TransformComponent,
        ComponentKind::RenderableComponent,
        ComponentKind::GeometryType,
        ComponentKind::GeometryComponent,
        ComponentKind::DirectionalLightComponent,
        ComponentKind::AmbientLightingComponent,
        ComponentKind::CameraComponent,
        ComponentKind::InputComponent,
    ];
    assert(with_staged_resources(w).type_registry->0 =~= base.union(lit));
    assert(with_staged_resources(WorldView::empty()).type_registry->0 =~= Set::<ComponentKind>::empty().union(lit));
}

impl<S> Scene<S> {
    /// The view of the scene's world, if it has one.
    pub open spec fn world_view(self) -> Option<WorldView> {
        match self.world {
            Some(w) => Some(w@),
            None => None,
        }
    }

    /// The scene's world, if it has one, to be used in place.
    pub fn get_world(&mut self) -> (w: Option<&mut World>)
        ensures
            final(self).state == old(self).state,
            old(self).world is None ==> w is None && final(self).world is None,
            old(self).world is Some ==> {
                &&& w is Some
                &&& *w->0 == old(self).world->0
                &&& final(self).world == Some(*final(w->0))
            },
    {
        self.world.as_mut()
    }

    /// Serializing a scene does nothing; the scene is left as it is.
    pub fn serialize(&mut self)
        ensures
            *final(self) == *old(self),
    {
    }
}

/// The world that `e` makes of the world `w` by running `schedule`, where both are there.
pub open spec fn world_after<E: SystemExecutor>(
    e: E,
    schedule: Option<Schedule>,
    w: Option<WorldView>,
) -> Option<WorldView> {
    match (schedule, w) {
        (Some(s), Some(w)) => Some(after_schedule(e, s@, w)),
        _ => w,
    }
}

/// The world view after `r` is inserted, where there is a world.
pub open spec fn insert_into(w: Option<WorldView>, r: Resource) -> Option<WorldView> {
    match w {
        Some(w) => Some(w.with_resource(r)),
        None => None,
    }
}

/// Whether `w` is a world that holds a resource of `kind`.
pub open spec fn world_contains(w: Option<WorldView>, kind: ResourceKind) -> bool {
    match w {
        Some(w) => w.contains(kind),
        None => false,
    }
}

/// The world view with an empty queue of pressed keys, where there is a world.
pub open spec fn with_empty_key_queue(w: Option<WorldView>) -> Option<WorldView> {
    match w {
        Some(w) => Some(w.with_key_queue(Seq::empty())),
        None => None,
    }
}

impl Scene<Inactive> {
    /// A stored-away scene without a world.
    pub fn new() -> (s: Self)
        ensures
            s.world is None,
    {
        Scene { world: None, state: Inactive }
    }

    /// Stages the scene: it gets a new, empty world and fresh setup and teardown schedules.
    pub fn into_staged(self) -> (s: Scene<Staged>)
        ensures
            s.world_view() == Some(WorldView::empty()),
            schedule_view(s.state.setup_schedule) == Some(setup_schedule_view()),
            schedule_view(s.state.teardown_schedule) == Some(Seq::<(StageLabel, SystemStageView)>::empty()),
    {
        let mut scene = Scene {
            world: Some(World::new()),
            state: Staged { setup_schedule: None, teardown_schedule: None },
        };
        scene.create_setup_schedule();
        scene.create_teardown_schedule();
        scene
    }
}

impl Scene<Staged> {
    /// Whether the scene has a fresh setup schedule and an empty teardown schedule.
    pub open spec fn has_fresh_schedules(self) -> bool {
        &&& schedule_view(self.state.setup_schedule) == Some(setup_schedule_view())
        &&& schedule_view(self.state.teardown_schedule) == Some(
            Seq::<(StageLabel, SystemStageView)>::empty(),
        )
    }

    /// Whether the scene is as `Scene::<Staged>::new` builds it.
    pub open spec fn is_fresh(self) -> bool {
        &&& self.world_view() == Some(with_staged_resources(WorldView::empty()))
        &&& self.has_fresh_schedules()
    }

    /// A staged scene with a new world that holds the resources of a staged scene, whose type
    /// registry knows the staged scene's component types, and with fresh setup and teardown
    /// schedules.
    pub fn new() -> (s: Self)
        ensures
            s.world_view() == Some(with_staged_resources(WorldView::empty())),
            schedule_view(s.state.setup_schedule) == Some(setup_schedule_view()),
            schedule_view(s.state.teardown_schedule) == Some(Seq::<(StageLabel, SystemStageView)>::empty()),
    {
        let mut scene = Scene {
            world: Some(World::new()),
            state: Staged { setup_schedule: None, teardown_schedule: None },
        };
        scene.create_setup_schedule();
        scene.create_teardown_schedule();
        Self::init_resources(&mut scene);
        scene
    }

    /// Initialises the resources of a staged scene and registers its component types.
    fn init_resources(scene: &mut Scene<Staged>)
        requires
            old(scene).world is Some,
        ensures
            final(scene).world_view() == Some(with_staged_resources(old(scene).world_view()->0)),
            schedule_view(final(scene).state.setup_schedule) == schedule_view(old(scene).state.setup_schedule),
            schedule_view(final(scene).state.teardown_schedule) == schedule_view(old(scene).state.teardown_schedule),
    {
        let mut world = scene.world.take().unwrap();
        let ghost w0 = world@;
        world.init_resource(ResourceKind::Other(OtherResource::SaveEvents));
        world.init_resource(ResourceKind::TypeRegistry);
        world.init_resource(ResourceKind::MessagePump);
        world.init_resource(ResourceKind::Other(OtherResource::CreateProjectEvents));
        world.init_resource(ResourceKind::Other(OtherResource::CloseProjectEvents));
        world.init_resource(ResourceKind::Other(OtherResource::OpenProjectEvents));
        world.init_resource(ResourceKind::Other(OtherResource::FileSubMenuMessages));
        world.init_resource(ResourceKind::Other(OtherResource::TerrainRecalculateEvents));
        let ghost w1 = world@;
        assert(w1.type_registry is Some);
        world.register_component(ComponentKind::AppInterfaceFlag);
        world.register_component(ComponentKind::DebugUiComponent);
        world.register_component(ComponentKind::FileSubMenuComponent);
        world.register_component(ComponentKind::TerrainComponent);
        world.register_component(ComponentKind::TransformComponent);
        world.register_component(ComponentKind::TerrainUiComponent);
        world.register_component(ComponentKind::RenderableComponent);
        world.register_component(ComponentKind::GeometryType);
        world.register_component(ComponentKind::GeometryComponent);
        world.register_component(ComponentKind::DirectionalLightComponent);
        world.register_component(ComponentKind::AmbientLightingComponent);
        world.register_component(ComponentKind::CameraComponent);
        world.register_component(ComponentKind::InputComponent);
        proof {
            assert(world@.type_registry->0 =~= w1.type_registry->0.union(staged_scene_components()));
            assert(world@ == with_staged_resources(w0));
        }
        scene.world = Some(world);
    }

    fn create_setup_schedule(&mut self)
        ensures
            final(self).world_view() == old(self).world_view(),
            schedule_view(final(self).state.setup_schedule) == Some(setup_schedule_view()),
            schedule_view(final(self).state.teardown_schedule) == schedule_view(old(self).state.teardown_schedule),
    {
        self.state.setup_schedule = Some(build_setup_schedule());
    }

    fn create_teardown_schedule(&mut self)
        ensures
            final(self).world_view() == old(self).world_view(),
            schedule_view(final(self).state.setup_schedule) == schedule_view(old(self).state.setup_schedule),
            schedule_view(final(self).state.teardown_schedule) == Some(Seq::<(StageLabel, SystemStageView)>::empty()),
    {
        self.state.teardown_schedule = Some(Schedule::new());
    }

    /// Runs the setup schedule on the world through `executor` and keeps the schedule.
    pub fn run_setup_schedule<E: SystemExecutor>(&mut self, executor: &mut E)
        requires
            old(self).world is Some,
            old(self).state.setup_schedule is Some,
        ensures
            final(self).world_view() == world_after(
                *old(executor),
                old(self).state.setup_schedule,
                old(self).world_view(),
            ),
            same_steps(*final(executor), *old(executor)),
            schedule_view(final(self).state.setup_schedule) == schedule_view(old(self).state.setup_schedule),
            schedule_view(final(self).state.teardown_schedule) == schedule_view(old(self).state.teardown_schedule),
    {
        let schedule = self.state.setup_schedule.take().unwrap();
        let mut world = self.world.take().unwrap();
        schedule.run(&mut world, executor);
        self.world = Some(world);
        self.state.setup_schedule = Some(schedule);
    }

    /// Runs the teardown schedule on the world through `executor` and keeps the schedule.
    pub fn run_teardown_schedule<E: SystemExecutor>(&mut self, executor: &mut E)
        requires
            old(self).world is Some,
            old(self).state.teardown_schedule is Some,
        ensures
            final(self).world_view() == world_after(
                *old(executor),
                old(self).state.teardown_schedule,
                old(self).world_view(),
            ),
            same_steps(*final(executor), *old(executor)),
            schedule_view(final(self).state.setup_schedule) == schedule_view(old(self).state.setup_schedule),
            schedule_view(final(self).state.teardown_schedule) == schedule_view(old(self).state.teardown_schedule),
    {
        let schedule = self.state.teardown_schedule.take().unwrap();
        let mut world = self.world.take().unwrap();
        schedule.run(&mut world, executor);
        self.world = Some(world);
        self.state.teardown_schedule = Some(schedule);
    }

    /// Puts `r` into the world; a scene without a world is left as it is.
    pub fn insert_resource(&mut self, r: Resource)
        ensures
            final(self).world_view() == insert_into(old(self).world_view(), r),
            final(self).state == old(self).state,
    {
        match self.world.take() {
            Some(mut world) => {
                world.insert_resource(r);
                self.world = Some(world);
            },
            None => {},
        }
    }

    /// Whether the scene has a world that holds a resource of `kind`.
    pub fn contains_resource(&self, kind: ResourceKind) -> (b: bool)
        ensures
            b == world_contains(self.world_view(), kind),
    {
        match &self.world {
            Some(world) => world.contains_resource(kind),
            None => false,
        }
    }

    /// Activates the scene: the setup schedule runs on the world, which the active scene
    /// keeps, and the active scene gets fresh render, update and teardown schedules.
    pub fn activate<E: SystemExecutor>(self, executor: &mut E) -> (s: Scene<Active>)
        requires
            self.world is Some,
            self.state.setup_schedule is Some,
        ensures
            s.world_view() == world_after(*old(executor), self.state.setup_schedule, self.world_view()),
            same_steps(*final(executor), *old(executor)),
            !s.state.device_loaded,
            schedule_view(s.state.render_schedule) == Some(render_schedule_view()),
            schedule_view(s.state.update_schedule) == Some(Seq::<(StageLabel, SystemStageView)>::empty()),
            schedule_view(s.state.teardown_schedule) == Some(Seq::<(StageLabel, SystemStageView)>::empty()),
    {
        let mut staged = self;
        staged.run_setup_schedule(executor);
        let mut scene = Scene {
            world: staged.world,
            state: Active {
                device_loaded: false,
                update_schedule: None,
                render_schedule: None,
                teardown_schedule: None,
            },
        };
        scene.create_render_schedule();
        scene.create_update_schedule();
        scene.create_teardown_schedule();
        scene
    }

    /// Stores the scene away; its world is dropped.
    pub fn into_inactive(self) -> (s: Scene<Inactive>)
        ensures
            s.world is None,
    {
        Scene { world: None, state: Inactive }
    }
}

impl Scene<Active> {
    /// Whether the scene has just been activated: it has a world, its device is not loaded,
    /// and it has a fresh render schedule and empty update and teardown schedules.
    pub open spec fn is_fresh(self) -> bool {
        &&& self.world is Some
        &&& !self.state.device_loaded
        &&& schedule_view(self.state.render_schedule) == Some(render_schedule_view())
        &&& schedule_view(self.state.update_schedule) == Some(
            Seq::<(StageLabel, SystemStageView)>::empty(),
        )
        &&& schedule_view(self.state.teardown_schedule) == Some(
            Seq::<(StageLabel, SystemStageView)>::empty(),
        )
    }

    /// Puts `r` into the world; a scene without a world is left as it is.
    pub fn insert_resource(&mut self, r: Resource)
        ensures
            final(self).world_view() == insert_into(old(self).world_view(), r),
            final(self).state == old(self).state,
    {
        match self.world.take() {
            Some(mut world) => {
                world.insert_resource(r);
                self.world = Some(world);
            },
            None => {},
        }
    }

    /// Whether the scene has a world that holds a resource of `kind`.
    pub fn contains_resource(&self, kind: ResourceKind) -> (b: bool)
        ensures
            b == world_contains(self.world_view(), kind),
    {
        match &self.world {
            Some(world) => world.contains_resource(kind),
            None => false,
        }
    }

    /// Hands out the messages waiting in the world's message pump and empties it; `None`
    /// where the scene has no world or the world has no pump.
    pub fn take_messages(&mut self) -> (messages: Option<Vec<crate::events::SceneManagerMessage>>)
        ensures
            final(self).state == old(self).state,
            match old(self).world_view() {
                Some(w) => match w.message_pump {
                    Some(waiting) => {
                        &&& messages is Some
                        &&& messages->0@ == waiting
                        &&& final(self).world_view() == Some(w.with_pump(Seq::empty()))
                    },
                    None => messages is None && final(self).world_view() == old(self).world_view(),
                },
                None => messages is None && final(self).world is None,
            },
    {
        match self.world.take() {
            Some(mut world) => {
                let m = world.take_messages();
                self.world = Some(world);
                m
            },
            None => None,
        }
    }

    /// Gives the scene a fresh render schedule.
    pub fn create_render_schedule(&mut self)
        ensures
            final(self).world_view() == old(self).world_view(),
            final(self).state.device_loaded == old(self).state.device_loaded,
            schedule_view(final(self).state.render_schedule) == Some(render_schedule_view()),
            schedule_view(final(self).state.update_schedule) == schedule_view(old(self).state.update_schedule),
            schedule_view(final(self).state.teardown_schedule) == schedule_view(old(self).state.teardown_schedule),
    {
        self.state.render_schedule = Some(build_render_schedule());
    }

    /// Gives the scene a fresh, empty update schedule.
    pub fn create_update_schedule(&mut self)
        ensures
            final(self).world_view() == old(self).world_view(),
            final(self).state.device_loaded == old(self).state.device_loaded,
            schedule_view(final(self).state.render_schedule) == schedule_view(old(self).state.render_schedule),
            schedule_view(final(self).state.update_schedule) == Some(Seq::<(StageLabel, SystemStageView)>::empty()),
            schedule_view(final(self).state.teardown_schedule) == schedule_view(old(self).state.teardown_schedule),
    {
        self.state.update_schedule = Some(Schedule::new());
    }

    /// Gives the scene a fresh, empty teardown schedule.
    pub fn create_teardown_schedule(&mut self)
        ensures
            final(self).world_view() == old(self).world_view(),
            final(self).state.device_loaded == old(self).state.device_loaded,
            schedule_view(final(self).state.render_schedule) == schedule_view(old(self).state.render_schedule),
            schedule_view(final(self).state.update_schedule) == schedule_view(old(self).state.update_schedule),
            schedule_view(final(self).state.teardown_schedule) == Some(Seq::<(StageLabel, SystemStageView)>::empty()),
    {
        self.state.teardown_schedule = Some(Schedule::new());
    }

    /// Runs the render schedule on the world through `executor` and keeps the schedule.
    pub fn run_render_schedule<E: SystemExecutor>(&mut self, executor: &mut E)
        requires
            old(self).world is Some,
            old(self).state.render_schedule is Some,
        ensures
            final(self).world_view() == world_after(
                *old(executor),
                old(self).state.render_schedule,
                old(self).world_view(),
            ),
            same_steps(*final(executor), *old(executor)),
            final(self).state == old(self).state,
    {
        let schedule = self.state.render_schedule.take().unwrap();
        let mut world = self.world.take().unwrap();
        schedule.run(&mut world, executor);
        self.world = Some(world);
        self.state.render_schedule = Some(schedule);
    }

    /// Runs the update schedule on the world through `executor` and keeps the schedule.
    pub fn run_update_schedule<E: SystemExecutor>(&mut self, executor: &mut E)
        requires
            old(self).world is Some,
            old(self).state.update_schedule is Some,
        ensures
            final(self).world_view() == world_after(
                *old(executor),
                old(self).state.update_schedule,
                old(self).world_view(),
            ),
            same_steps(*final(executor), *old(executor)),
            final(self).state == old(self).state,
    {
        let schedule = self.state.update_schedule.take().unwrap();
        let mut world = self.world.take().unwrap();
        schedule.run(&mut world, executor);
        self.world = Some(world);
        self.state.update_schedule = Some(schedule);
    }

    /// Runs the teardown schedule on the world through `executor` and keeps the schedule.
    pub fn run_teardown_schedule<E: SystemExecutor>(&mut self, executor: &mut E)
        requires
            old(self).world is Some,
            old(self).state.teardown_schedule is Some,
        ensures
            final(self).world_view() == world_after(
                *old(executor),
                old(self).state.teardown_schedule,
                old(self).world_view(),
            ),
            same_steps(*final(executor), *old(executor)),
            final(self).state == old(self).state,
    {
        let schedule = self.state.teardown_schedule.take().unwrap();
        let mut world = self.world.take().unwrap();
        schedule.run(&mut world, executor);
        self.world = Some(world);
        self.state.teardown_schedule = Some(schedule);
    }

    /// Gives the world an empty queue of pressed keys.
    pub fn insert_required_resources(&mut self)
        ensures
            final(self).world_view() == with_empty_key_queue(old(self).world_view()),
            final(self).state == old(self).state,
    {
        self.insert_resource(Resource::KeyInputQueue(VecDeque::new()));
    }

    /// Stages the scene: the teardown schedule runs on the world, which the staged scene
    /// keeps, and the staged scene gets fresh setup and teardown schedules.
    pub fn into_staged<E: SystemExecutor>(self, executor: &mut E) -> (s: Scene<Staged>)
        requires
            self.world is Some,
            self.state.teardown_schedule is Some,
        ensures
            s.world_view() == world_after(*old(executor), self.state.teardown_schedule, self.world_view()),
            same_steps(*final(executor), *old(executor)),
            schedule_view(s.state.setup_schedule) == Some(setup_schedule_view()),
            schedule_view(s.state.teardown_schedule) == Some(Seq::<(StageLabel, SystemStageView)>::empty()),
    {
        let mut active = self;
        active.run_teardown_schedule(executor);
        let mut scene = Scene {
            world: active.world,
            state: Staged { setup_schedule: None, teardown_schedule: None },
        };
        scene.create_setup_schedule();
        scene.create_teardown_schedule();
        scene
    }

    /// Stores the scene away; its world is dropped.
    pub fn into_inactive(self) -> (s: Scene<Inactive>)
        ensures
            s.world is None,
    {
        Scene { world: None, state: Inactive }
    }
}

} // verus!
