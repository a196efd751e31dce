use vstd::prelude::*;

use crate::world::{World, WorldView};

verus! {

/// The stages that scene schedules are built from.
#[derive(Clone, Copy, PartialEq, Eq, Structural, Debug)]
pub enum StageLabel {
    UiInit,
    GeometryInit,
    FinalInit,
    CameraMove,
    CameraUpdate,
    WireframeInputSystem,
    AssemblyStateModifierSystem,
    Main,
    PreUi,
    Ui,
    EventProcessing,
}

/// The systems that scene schedules run.
#[derive(Clone, Copy, PartialEq, Eq, Structural, Debug)]
pub enum SystemKind {
    InitializeEditorInterface,
    GeometryInitializerSystem,
    TerrainInitSystem,
    CameraInitSystem,
    RenderableInitializerSystem,
    CameraMoveSystem,
    CameraUpdateSystem,
    RenderableAssemblyStateModifierSystem,
    TerrainAssemblyStateModifierSystem,
    RenderableDrawSystem,
    DirectionalLightingSystem,
    AmbientLightingSystem,
    TerrainDrawSystem,
    PanelInitSystem,
    TerrainUiSystem,
    CameraUiSystem,
    FileSubMenuSystem,
    ShowNewProjectWindow,
    ShowOpenProjectWindow,
    TransformUiSystem,
    SceneGraphUiSystem,
    EntityInspectionUiSystem,
    SceneSerializationSystem,
    TerrainUpdateSystem,
    ProjectCreationSystem,
    OpenProjectSystem,
}

/// Whether a stage may run its systems side by side or runs them one after the other.
#[derive(Clone, Copy, PartialEq, Eq, Structural, Debug)]
pub enum StageExecutor {
    Parallel,
    SingleThreaded,
}

/// A stage: how it runs, and its systems in the order in which they were added.
pub struct SystemStage {
    executor: StageExecutor,
    systems: Vec<SystemKind>,
}

/// What a stage holds.
#[verifier::ext_equal]
pub struct SystemStageView {
    pub executor: StageExecutor,
    pub systems: Seq<SystemKind>,
}

impl View for SystemStage {
    type V = SystemStageView;

    closed spec fn view(&self) -> SystemStageView {
        SystemStageView { executor: self.executor, systems: self.systems@ }
    }
}

/// The view of a stage that runs `systems` with `executor`.
pub open spec fn stage_view(executor: StageExecutor, systems: Seq<SystemKind>) -> SystemStageView {
    SystemStageView { executor, systems }
}

impl SystemStage {
    /// An empty stage whose systems may run side by side.
    pub fn parallel() -> (s: Self)
        ensures
            s@ == stage_view(StageExecutor::Parallel, Seq::empty()),
    {
        SystemStage { executor: StageExecutor::Parallel, systems: Vec::new() }
    }

    /// An empty stage whose systems run one after the other.
    pub fn single_threaded() -> (s: Self)
        ensures
            s@ == stage_view(StageExecutor::SingleThreaded, Seq::empty()),
    {
        SystemStage { executor: StageExecutor::SingleThreaded, systems: Vec::new() }
    }

    /// The stage with `system` added after its systems.
    pub fn with_system(self, system: SystemKind) -> (s: Self)
        ensures
            s@ == stage_view(self@.executor, self@.systems.push(system)),
    {
        let mut s = self;
        s.systems.push(system);
        s
    }

    /// The systems of the stage, in order.
    pub fn systems(&self) -> (v: &Vec<SystemKind>)
        ensures
            v@ == self@.systems,
    {
        &self.systems
    }
}

/// Runs systems on a world. Implemented by the front end that holds the systems' code.
pub trait SystemExecutor: Sized {
    /// What running `system` makes of a world that holds `w`.
    spec fn step(&self, system: SystemKind, w: WorldView) -> WorldView;

    /// Runs `system` on `world`. Running a system does not change what the executor makes of
    /// later runs.
    fn run_system(&mut self, system: SystemKind, world: &mut World)
        ensures
            final(world)@ == old(self).step(system, old(world)@),
            forall|s: SystemKind, w: WorldView| #[trigger] final(self).step(s, w) == old(self).step(s, w),
    ;
}

/// An executor for a program that links in no system code: every system leaves the world
/// as it is.
pub struct InertExecutor;

impl SystemExecutor for InertExecutor {
    open spec fn step(&self, system: SystemKind, w: WorldView) -> WorldView {
        w
    }

    fn run_system(&mut self, system: SystemKind, world: &mut World) {
    }
}

/// Whether two executors make the same of every system on every world.
pub open spec fn same_steps<E: SystemExecutor>(a: E, b: E) -> bool {
    forall|s: SystemKind, w: WorldView| #[trigger] a.step(s, w) == b.step(s, w)
}

/// The world that `e` makes of `w` by running `systems` in order.
pub open spec fn run_systems<E: SystemExecutor>(e: E, systems: Seq<SystemKind>, w: WorldView) -> WorldView
    decreases systems.len(),
{
    if systems.len() == 0 {
        w
    } else {
        e.step(systems.last(), run_systems(e, systems.drop_last(), w))
    }
}

/// Executors that make the same of every system make the same of every run.
pub proof fn lemma_run_systems_same_steps<E: SystemExecutor>(
    a: E,
    b: E,
    systems: Seq<SystemKind>,
    w: WorldView,
)
    requires
        same_steps(a, b),
    ensures
        run_systems(a, systems, w) == run_systems(b, systems, w),
    decreases systems.len(),
{
    if systems.len() > 0 {
        lemma_run_systems_same_steps(a, b, systems.drop_last(), w);
        assert(a.step(systems.last(), run_systems(b, systems.drop_last(), w)) == b.step(
            systems.last(),
            run_systems(b, systems.drop_last(), w),
        ));
    }
}

/// The world that `e` makes of `w` by running the schedule whose stages are `stages`.
pub open spec fn after_schedule<E: SystemExecutor>(
    e: E,
    stages: Seq<(StageLabel, SystemStageView)>,
    w: WorldView,
) -> WorldView {
    run_systems(e, run_order(stages), w)
}

/// An ordered list of labelled stages; no label occurs twice.
pub struct Schedule {
    stages: Vec<(StageLabel, SystemStage)>,
}

/// The labels of `stages`, in order.
pub open spec fn labels_of(stages: Seq<(StageLabel, SystemStageView)>) -> Seq<StageLabel> {
    stages.map_values(|p: (StageLabel, SystemStageView)| p.0)
}

/// The systems of `stages`: the stages in order, and within a stage its systems in order.
pub open spec fn run_order(stages: Seq<(StageLabel, SystemStageView)>) -> Seq<SystemKind>
    decreases stages.len(),
{
    if stages.len() == 0 {
        Seq::empty()
    } else {
        run_order(stages.drop_last()) + stages.last().1.systems
    }
}

impl View for Schedule {
    type V = Seq<(StageLabel, SystemStageView)>;

    closed spec fn view(&self) -> Seq<(StageLabel, SystemStageView)> {
        self.stages@.map_values(|p: (StageLabel, SystemStage)| (p.0, p.1@))
    }
}

impl Schedule {
    /// No label occurs twice.
    pub open spec fn wf(self) -> bool {
        self.labels().no_duplicates()
    }

    /// The labels of the schedule's stages, in order.
    pub open spec fn labels(self) -> Seq<StageLabel> {
        labels_of(self@)
    }

    /// A schedule without stages.
    pub fn new() -> (s: Self)
        ensures
            s@ == Seq::<(StageLabel, SystemStageView)>::empty(),
            s.wf(),
    {
        let s = Schedule { stages: Vec::new() };
        proof {
            assert(s@ =~= Seq::<(StageLabel, SystemStageView)>::empty());
            assert(labels_of(s@) =~= Seq::<StageLabel>::empty());
        }
        s
    }

    /// Whether a stage is labelled `label`.
    pub fn contains_label(&self, label: StageLabel) -> (b: bool)
        ensures
            b == self.labels().contains(label),
    {
        let mut i: usize = 0;
        while i < self.stages.len()
            invariant
                i <= self.stages@.len(),
                forall|j: int| 0 <= j < i ==> self.labels()[j] != label,
            decreases self.stages@.len() - i,
        {
            if self.stages[i].0 == label {
                proof {
                    assert(self.labels()[i as int] == label);
                }
                return true;
            }
            i = i + 1;
        }
        false
    }

    /// Adds a stage labelled `label` after every stage.
    pub fn add_stage(&mut self, label: StageLabel, stage: SystemStage)
        requires
            !old(self).labels().contains(label),
        ensures
            final(self)@ == old(self)@.push((label, stage@)),
            old(self).wf() ==> final(self).wf(),
    {
        let ghost sv = stage@;
        self.stages.push((label, stage));
        proof {
            assert(self@ =~= old(self)@.push((label, sv)));
            assert(labels_of(self@) =~= labels_of(old(self)@).push(label));
            assert(labels_of(self@)[labels_of(old(self)@).len() as int] == label);
        }
    }

    /// Adds a stage labelled `label` right after the stage labelled `target`.
    pub fn add_stage_after(&mut self, target: StageLabel, label: StageLabel, stage: SystemStage)
        requires
            old(self).wf(),
            old(self).labels().contains(target),
            !old(self).labels().contains(label),
        ensures
            final(self)@ == old(self)@.insert(old(self).labels().index_of(target) + 1, (label, stage@)),
            final(self).wf(),
    {
        let ghost sv = stage@;
        let ghost pos = old(self).labels().index_of(target) + 1;
        let n = self.stages.len();
        let mut i: usize = 0;
        while self.stages[i].0 != target
            invariant
                n == self.stages@.len(),
                i < self.stages@.len(),
                self.stages@ == old(self).stages@,
                self.labels() == old(self).labels(),
                self.labels().contains(target),
                forall|j: int| 0 <= j < i ==> self.labels()[j] != target,
            decreases self.stages@.len() - i,
        {
            proof {
                assert(self.labels()[i as int] != target);
                if i + 1 == self.stages@.len() {
                    let k = self.labels().index_of(target);
                    assert(self.labels()[k] == target);
                }
            }
            i = i + 1;
        }
        proof {
            assert(self.labels()[i as int] == target);
            assert(labels_of(old(self)@).no_duplicates());
            assert(old(self).labels().index_of(target) == i as int);
        }
        self.stages.insert(i + 1, (label, stage));
        proof {
            assert(self@ =~= old(self)@.insert(pos, (label, sv)));
            assert(labels_of(self@) =~= labels_of(old(self)@).insert(pos, label));
            assert forall|a: int, b: int| 0 <= a < b < labels_of(self@).len() implies labels_of(self@)[a]
                != labels_of(self@)[b] by {
                let ol = labels_of(old(self)@);
                if b < pos {
                } else if b == pos {
                    assert(ol.contains(ol[a]));
                } else if a < pos {
                    assert(labels_of(self@)[b] == ol[b - 1]);
                } else if a == pos {
                    assert(ol.contains(ol[b - 1]));
                } else {
                    assert(labels_of(self@)[a] == ol[a - 1]);
                    assert(labels_of(self@)[b] == ol[b - 1]);
                }
            }
        }
    }

    /// Every system of the schedule: the stages in order, and within a stage its systems in
    /// order.
    pub fn system_order(&self) -> (v: Vec<SystemKind>)
        ensures
            v@ == run_order(self@),
    {
        let mut order: Vec<SystemKind> = Vec::new();
        let mut i: usize = 0;
        while i < self.stages.len()
            invariant
                i <= self.stages@.len(),
                order@ == run_order(self@.take(i as int)),
            decreases self.stages@.len() - i,
        {
            let systems = self.stages[i].1.systems();
            let ghost before = order@;
            let mut j: usize = 0;
            while j < systems.len()
                invariant
                    j <= systems@.len(),
                    systems@ == self@[i as int].1.systems,
                    order@ == before + systems@.take(j as int),
                decreases systems@.len() - j,
            {
                order.push(systems[j]);
                j = j + 1;
                assert(order@ =~= before + systems@.take(j as int));
            }
            assert(self@.take(i + 1).drop_last() =~= self@.take(i as int));
            assert(systems@.take(j as int) =~= systems@);
            i = i + 1;
        }
        assert(self@.take(i as int) =~= self@);
        order
    }

    /// Runs every system through `executor`, in the order of `system_order`: the stages in
    /// order, and within a stage its systems in order.
    pub fn run<E: SystemExecutor>(&self, world: &mut World, executor: &mut E)
        ensures
            final(world)@ == after_schedule(*old(executor), self@, old(world)@),
            same_steps(*final(executor), *old(executor)),
    {
        let order = self.system_order();
        let mut k: usize = 0;
        while k < order.len()
            invariant
                k <= order@.len(),
                order@ == run_order(self@),
                world@ == run_systems(*old(executor), order@.take(k as int), old(world)@),
                same_steps(*executor, *old(executor)),
            decreases order@.len() - k,
        {
            let ghost before = *executor;
            executor.run_system(order[k], world);
            proof {
                assert(order@.take(k + 1).drop_last() =~= order@.take(k as int));
                assert(world@ == before.step(order@[k as int], run_systems(*old(executor), order@.take(k as int), old(world)@)));
            }
            k = k + 1;
        }
        proof {
            assert(order@.take(k as int) =~= order@);
        }
    }
}

impl Default for Schedule {
    fn default() -> (s: Self)
        ensures
            s@ == Seq::<(StageLabel, SystemStageView)>::empty(),
            s.wf(),
    {
        Schedule::new()
    }
}

} // verus!
