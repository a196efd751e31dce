use vstd::prelude::*;

use crate::events::SceneManagerMessage;
use crate::scene::{Active, Inactive, Scene, Staged};
use crate::scene::world_after;
use crate::schedule::{same_steps, SystemExecutor};
use crate::world::{ResourceKind, WorldView};

verus! {

/// What an update of the scene manager did.
#[derive(Clone, Copy, PartialEq, Eq, Structural, Debug)]
pub enum SceneManagerUpdateResults {
    NoUpdate,
    NewSceneOpened,
}

/// Why an update of the scene manager failed.
#[derive(Clone, Copy, PartialEq, Eq, Structural, Debug)]
pub enum SceneManagerUpdateError {
    NoActiveScene,
    NoWorldOnScene,
    UnknownMessageType,
    RonReadError,
    DeserializationError,
}

impl SceneManagerUpdateError {
    /// The message that describes the error.
    pub fn message(&self) -> (m: &'static str)
        ensures
            m@ == spec_update_error_message(*self),
    {
        match self {
            SceneManagerUpdateError::NoActiveScene => "No active scene",
            SceneManagerUpdateError::NoWorldOnScene => "No world on current scene",
            SceneManagerUpdateError::UnknownMessageType => "Unknown scene manager message type",
            SceneManagerUpdateError::RonReadError => "Error reading ron scene",
            SceneManagerUpdateError::DeserializationError => "Error in constructing scene from ron file",
        }
    }
}

/// The message that describes an update error.
pub open spec fn spec_update_error_message(e: SceneManagerUpdateError) -> Seq<char> {
    match e {
        SceneManagerUpdateError::NoActiveScene => "No active scene"@,
        SceneManagerUpdateError::NoWorldOnScene => "No world on current scene"@,
        SceneManagerUpdateError::UnknownMessageType => "Unknown scene manager message type"@,
        SceneManagerUpdateError::RonReadError => "Error reading ron scene"@,
        SceneManagerUpdateError::DeserializationError => "Error in constructing scene from ron file"@,
    }
}

/// The first half of an update: either it is over, or a scene file has to be read.
pub enum UpdatePlan {
    Finished(SceneManagerUpdateResults),
    /// The project at `project_path` is to be opened with the scene file at `scene_path`.
    LoadScene { project_path: String, scene_path: String },
}

/// What came of reading and parsing the scene file of an update.
#[derive(Clone, Copy, PartialEq, Eq, Structural, Debug)]
pub enum SceneLoadOutcome {
    /// The scene file could not be read.
    ReadFailed,
    /// The project's metadata could not be read.
    MetadataFailed,
    /// The scene file did not parse.
    DeserializeFailed,
    /// The scene file was read and parsed.
    Loaded,
}

/// The path of the scene file named `scene_name` in the project at `path`.
pub open spec fn scene_file_path(path: Seq<char>, scene_name: Seq<char>) -> Seq<char> {
    path + "/scenes/"@ + scene_name
}

/// Owns the active scene and the scene being staged.
pub struct SceneManager {
    active_scene: Option<Scene<Active>>,
    staged_scene: Option<Scene<Staged>>,
    scene_counter: i16,
}

impl SceneManager {
    /// The active scene.
    pub closed spec fn active(self) -> Option<Scene<Active>> {
        self.active_scene
    }

    /// The staged scene.
    pub closed spec fn staged(self) -> Option<Scene<Staged>> {
        self.staged_scene
    }

    /// Whether `update` can read the active scene's world: where there is an active scene
    /// with a world, the world holds a message pump and a type registry.
    pub open spec fn update_ready(self) -> bool {
        match self.active() {
            Some(scene) => match scene.world_view() {
                Some(w) => w.contains(ResourceKind::MessagePump) && w.contains(
                    ResourceKind::TypeRegistry,
                ),
                None => true,
            },
            None => true,
        }
    }

    /// A manager without scenes.
    pub fn new() -> (m: Self)
        ensures
            m.active() is None,
            m.staged() is None,
    {
        SceneManager { active_scene: None, staged_scene: None, scene_counter: 0 }
    }

    /// Starts the manager; there is nothing to set up.
    pub fn startup(&mut self)
        ensures
            *final(self) == *old(self),
    {
    }

    /// Shuts the manager down; there is nothing to release.
    pub fn shutdown(&mut self)
        ensures
            *final(self) == *old(self),
    {
    }

    /// The first half of an update.
    ///
    /// Without an active scene, or without a world on it, the update fails. Otherwise every
    /// message waiting in the world's pump is taken out, and only the oldest one is acted on:
    /// none waiting finishes the update without change; a request to close the project is
    /// refused as unknown; a request to open a project asks for its scene file, which is
    /// `<path>/scenes/<scene name>`.
    pub fn begin_update(&mut self) -> (r: Result<UpdatePlan, SceneManagerUpdateError>)
        requires
            old(self).update_ready(),
        ensures
            final(self).staged() == old(self).staged(),
            (r == Err::<UpdatePlan, SceneManagerUpdateError>(SceneManagerUpdateError::NoActiveScene))
                <==> old(self).active() is None,
            (r == Err::<UpdatePlan, SceneManagerUpdateError>(SceneManagerUpdateError::NoWorldOnScene))
                <==> (old(self).active() is Some && old(self).active()->0.world is None),
            (old(self).active() is None || old(self).active()->0.world is None) ==> *final(self)
                == *old(self),
            old(self).active() is None ==> r == Err::<UpdatePlan, SceneManagerUpdateError>(
                SceneManagerUpdateError::NoActiveScene,
            ) && final(self).active() is None,
            old(self).active() is Some && old(self).active()->0.world is None ==> r == Err::<
                UpdatePlan,
                SceneManagerUpdateError,
            >(SceneManagerUpdateError::NoWorldOnScene) && final(self).active() == old(self).active(),
            old(self).active() is Some && old(self).active()->0.world is Some ==> ({
                let w = old(self).active()->0.world_view()->0;
                let waiting = w.message_pump->0;
                &&& final(self).active() is Some
                &&& final(self).active()->0.state == old(self).active()->0.state
                &&& final(self).active()->0.world_view() == Some(w.with_pump(Seq::empty()))
                &&& waiting.len() == 0 ==> r == Ok::<UpdatePlan, SceneManagerUpdateError>(
                    UpdatePlan::Finished(SceneManagerUpdateResults::NoUpdate),
                )
                &&& waiting.len() > 0 && waiting[0] is CloseProject ==> r == Err::<
                    UpdatePlan,
                    SceneManagerUpdateError,
                >(SceneManagerUpdateError::UnknownMessageType)
                &&& waiting.len() > 0 && waiting[0] is OpenProject ==> {
                    &&& r is Ok
                    &&& r->Ok_0 is LoadScene
                    &&& r->Ok_0->project_path@ == waiting[0]->path@
                    &&& r->Ok_0->scene_path@ == scene_file_path(
                        waiting[0]->path@,
                        waiting[0]->scene_name@,
                    )
                }
            }),
    {
        let mut scene = match self.active_scene.take() {
            Some(s) => s,
            None => return Err(SceneManagerUpdateError::NoActiveScene),
        };
        if scene.world.is_none() {
            self.active_scene = Some(scene);
            return Err(SceneManagerUpdateError::NoWorldOnScene);
        }
        let messages = scene.take_messages().unwrap();
        self.active_scene = Some(scene);
        if messages.len() == 0 {
            return Ok(UpdatePlan::Finished(SceneManagerUpdateResults::NoUpdate));
        }
        match &messages[0] {
            SceneManagerMessage::OpenProject { path, scene_name } => {
                let mut scene_path = path.clone();
                scene_path.append("/scenes/");
                scene_path.append(scene_name.as_str());
                Ok(UpdatePlan::LoadScene { project_path: path.clone(), scene_path })
            },
            _ => Err(SceneManagerUpdateError::UnknownMessageType),
        }
    }

    /// The second half of an update, once the scene file has been read and parsed.
    ///
    /// A file that could not be read fails the update with `RonReadError`; project metadata
    /// that could not be read, or a file that did not parse, fail it with
    /// `DeserializationError`. A loaded file opens a new scene: the active scene is staged
    /// (its teardown schedule runs) and then stored away, and a new staged scene, built as
    /// `Scene::<Staged>::new` builds one, takes its place; no scene is active until the staged
    /// one is activated.
    pub fn finish_update<E: SystemExecutor>(
        &mut self,
        outcome: SceneLoadOutcome,
        executor: &mut E,
    ) -> (r: Result<SceneManagerUpdateResults, SceneManagerUpdateError>)
        requires
            outcome == SceneLoadOutcome::Loaded ==> old(self).can_stage_active(),
        ensures
            outcome == SceneLoadOutcome::ReadFailed ==> r == Err::<
                SceneManagerUpdateResults,
                SceneManagerUpdateError,
            >(SceneManagerUpdateError::RonReadError) && *final(self) == *old(self),
            (outcome == SceneLoadOutcome::MetadataFailed || outcome
                == SceneLoadOutcome::DeserializeFailed) ==> r == Err::<
                SceneManagerUpdateResults,
                SceneManagerUpdateError,
            >(SceneManagerUpdateError::DeserializationError) && *final(self) == *old(self),
            outcome == SceneLoadOutcome::Loaded ==> {
                &&& r == Ok::<SceneManagerUpdateResults, SceneManagerUpdateError>(
                    SceneManagerUpdateResults::NewSceneOpened,
                )
                &&& final(self).active() is None
                &&& final(self).staged() is Some
                &&& final(self).staged()->0.is_fresh()
            },
            outcome != SceneLoadOutcome::Loaded ==> *final(executor) == *old(executor),
            same_steps(*final(executor), *old(executor)),
    {
        match outcome {
            SceneLoadOutcome::ReadFailed => Err(SceneManagerUpdateError::RonReadError),
            SceneLoadOutcome::MetadataFailed => Err(SceneManagerUpdateError::DeserializationError),
            SceneLoadOutcome::DeserializeFailed => Err(
                SceneManagerUpdateError::DeserializationError,
            ),
            SceneLoadOutcome::Loaded => {
                self.stage_active_scene(executor);
                self.deactivate_staged_scene();
                let staged_scene = Scene::<Staged>::new();
                self.set_staged_scene(staged_scene);
                Ok(SceneManagerUpdateResults::NewSceneOpened)
            },
        }
    }

    /// Whether the active scene can be staged: there is one, with a world and a teardown
    /// schedule.
    pub open spec fn can_stage_active(self) -> bool {
        &&& self.active() is Some
        &&& self.active()->0.world is Some
        &&& self.active()->0.state.teardown_schedule is Some
    }

    /// Whether the staged scene can be activated: there is one, with a world and a setup
    /// schedule.
    pub open spec fn can_activate_staged(self) -> bool {
        &&& self.staged() is Some
        &&& self.staged()->0.world is Some
        &&& self.staged()->0.state.setup_schedule is Some
    }

    /// Does nothing to the staged scene; the managers prepare it.
    pub fn prep_staged_scene(&mut self, _scene: &mut Scene<Staged>)
        ensures
            *final(self) == *old(self),
    {
    }

    /// Makes `scene` the staged scene, in place of any staged before.
    pub fn set_staged_scene(&mut self, scene: Scene<Staged>)
        ensures
            final(self).staged() == Some(scene),
            final(self).active() == old(self).active(),
    {
        self.staged_scene = Some(scene);
    }

    /// Stages a stored-away scene, in place of any staged before.
    pub fn stage_inactive_scene(&mut self, inactive_scene: Scene<Inactive>)
        ensures
            final(self).staged() is Some,
            final(self).staged()->0.world_view() == Some(WorldView::empty()),
            final(self).staged()->0.has_fresh_schedules(),
            final(self).active() == old(self).active(),
    {
        let staged = inactive_scene.into_staged();
        self.staged_scene = Some(staged);
    }

    /// Activates the staged scene, in place of any active before: its setup schedule runs
    /// on its world, and the active scene keeps the world and gets fresh render, update and
    /// teardown schedules. No scene is staged afterwards.
    pub fn activate_staged_scene<E: SystemExecutor>(&mut self, executor: &mut E)
        requires
            old(self).can_activate_staged(),
        ensures
            final(self).staged() is None,
            final(self).active() is Some,
            final(self).active()->0.is_fresh(),
            final(self).active()->0.world_view() == world_after(
                *old(executor),
                old(self).staged()->0.state.setup_schedule,
                old(self).staged()->0.world_view(),
            ),
            same_steps(*final(executor), *old(executor)),
    {
        let staged_scene = self.staged_scene.take().unwrap();
        let active_scene = staged_scene.activate(executor);
        self.active_scene = Some(active_scene);
    }

    /// Stages the active scene, in place of any staged before: its teardown schedule runs on
    /// its world, and the staged scene keeps the world and gets fresh setup and teardown
    /// schedules. No scene is active afterwards.
    pub fn stage_active_scene<E: SystemExecutor>(&mut self, executor: &mut E)
        requires
            old(self).can_stage_active(),
        ensures
            final(self).active() is None,
            final(self).staged() is Some,
            final(self).staged()->0.world_view() == world_after(
                *old(executor),
                old(self).active()->0.state.teardown_schedule,
                old(self).active()->0.world_view(),
            ),
            final(self).staged()->0.has_fresh_schedules(),
            same_steps(*final(executor), *old(executor)),
    {
        let scene = self.active_scene.take().unwrap();
        let staged_scene = scene.into_staged(executor);
        self.staged_scene = Some(staged_scene);
    }

    /// Stores the staged scene away; it is dropped with its world.
    pub fn deactivate_staged_scene(&mut self)
        requires
            old(self).staged() is Some,
        ensures
            final(self).staged() is None,
            final(self).active() == old(self).active(),
    {
        let staged_scene = self.staged_scene.take().unwrap();
        let _inactive_scene = staged_scene.into_inactive();
    }

    /// Makes a new staged scene, built as `Scene::<Staged>::new` builds one, the staged scene.
    pub fn create_and_set_staged_scene(&mut self)
        ensures
            final(self).staged() is Some,
            final(self).staged()->0.is_fresh(),
            final(self).active() == old(self).active(),
    {
        let staged_scene = Scene::<Staged>::new();
        self.set_staged_scene(staged_scene);
    }

    /// The staged scene, to be prepared in place.
    pub fn get_staged_scene(&mut self) -> (scene: &mut Scene<Staged>)
        requires
            old(self).staged() is Some,
        ensures
            *scene == old(self).staged()->0,
            final(self).staged() == Some(*final(scene)),
            final(self).active() == old(self).active(),
    {
        self.staged_scene.as_mut().unwrap()
    }

    /// The active scene, if there is one, to be used in place.
    pub fn get_active_scene(&mut self) -> (scene: Option<&mut Scene<Active>>)
        ensures
            final(self).staged() == old(self).staged(),
            old(self).active() is None ==> scene is None && final(self).active() is None,
            old(self).active() is Some ==> {
                &&& scene is Some
                &&& *scene->0 == old(self).active()->0
                &&& final(self).active() == Some(*final(scene->0))
            },
    {
        self.active_scene.as_mut()
    }
}

} // verus!
