use vstd::prelude::*;

use std::collections::HashMap;

use crate::manager::Manager;
use crate::scene::{Active, Inactive, Scene, Staged};
use crate::scene::world_after;
use crate::schedule::{same_steps, SystemExecutor};
use crate::world::WorldView;

verus! {

broadcast use vstd::std_specs::hash::group_hash_axioms;

/// Keeps stored-away scenes by id, and stages and activates them.
pub struct SceneManager {
    active_scene: Option<Scene<Active>>,
    active_scene_id: Option<i16>,
    staged_scene: Option<Scene<Staged>>,
    staged_scene_id: Option<i16>,
    scenes: HashMap<i16, Scene<Inactive>>,
    scene_counter: i16,
}

impl SceneManager {
    /// The active scene.
    pub closed spec fn active(self) -> Option<Scene<Active>> {
        self.active_scene
    }

    /// The id of the active scene.
    pub closed spec fn active_id(self) -> Option<i16> {
        self.active_scene_id
    }

    /// The staged scene.
    pub closed spec fn staged(self) -> Option<Scene<Staged>> {
        self.staged_scene
    }

    /// The id of the staged scene.
    pub closed spec fn staged_id(self) -> Option<i16> {
        self.staged_scene_id
    }

    /// The stored-away scenes by id.
    pub closed spec fn scenes(self) -> Map<i16, Scene<Inactive>> {
        self.scenes@
    }

    /// The last id handed out; 0 before any.
    pub closed spec fn counter(self) -> i16 {
        self.scene_counter
    }

    /// Every stored scene has an id that was handed out: between 1 and the counter.
    pub open spec fn wf(self) -> bool {
        &&& self.counter() >= 0
        &&& forall|id: i16| #[trigger] self.scenes().contains_key(id) ==> 1 <= id <= self.counter()
    }

    /// A manager without scenes, that has handed out no id.
    pub fn create_new() -> (m: Self)
        ensures
            m.wf(),
            m.active() is None,
            m.active_id() is None,
            m.staged() is None,
            m.staged_id() is None,
            m.scenes() == Map::<i16, Scene<Inactive>>::empty(),
            m.counter() == 0,
    {
        SceneManager {
            active_scene: None,
            active_scene_id: None,
            staged_scene: None,
            staged_scene_id: None,
            scenes: HashMap::new(),
            scene_counter: 0,
        }
    }

    /// Does nothing to the staged scene; the managers prepare it.
    pub fn prep_staged_scene(&mut self, _scene: &mut Scene<Staged>)
        ensures
            *final(self) == *old(self),
    {
    }

    /// Stores a new scene without a world under the next id, and returns the id.
    pub fn generate_and_register_scene(&mut self) -> (key: i16)
        requires
            old(self).wf(),
            old(self).counter() < i16::MAX,
        ensures
            final(self).wf(),
            key == old(self).counter() + 1,
            final(self).counter() == key,
            !old(self).scenes().contains_key(key),
            final(self).scenes().contains_key(key),
            final(self).scenes()[key].world is None,
            final(self).scenes() == old(self).scenes().insert(key, final(self).scenes()[key]),
            final(self).active() == old(self).active(),
            final(self).active_id() == old(self).active_id(),
            final(self).staged() == old(self).staged(),
            final(self).staged_id() == old(self).staged_id(),
    {
        self.scene_counter = self.scene_counter + 1;
        let key = self.scene_counter;
        let scene = Scene::<Inactive>::new();
        let ghost s = scene;
        self.scenes.insert(key, scene);
        proof {
            assert(self.scenes@[key] == s);
            assert forall|id: i16| #[trigger] self.scenes().contains_key(id) implies 1 <= id
                <= self.counter() by {
                if id != key {
                    assert(old(self).scenes().contains_key(id));
                }
            }
        }
        key
    }

    /// Drops the stored scene with id `scene_id`, if there is one.
    pub fn unregister_scene(&mut self, scene_id: i16)
        requires
            old(self).wf(),
        ensures
            final(self).wf(),
            final(self).scenes() == old(self).scenes().remove(scene_id),
            final(self).counter() == old(self).counter(),
            final(self).active() == old(self).active(),
            final(self).active_id() == old(self).active_id(),
            final(self).staged() == old(self).staged(),
            final(self).staged_id() == old(self).staged_id(),
    {
        self.scenes.remove(&scene_id);
        proof {
            assert forall|id: i16| #[trigger] self.scenes().contains_key(id) implies 1 <= id
                <= self.counter() by {
                assert(old(self).scenes().contains_key(id));
            }
        }
    }

    /// The id of the active scene.
    pub fn get_active_scene_id(&self) -> (id: Option<i16>)
        ensures
            id == self.active_id(),
    {
        self.active_scene_id
    }

    /// Whether a scene is stored under `id`.
    pub fn does_scene_exist(&self, id: &i16) -> (b: bool)
        ensures
            b == self.scenes().contains_key(*id),
    {
        self.scenes.contains_key(id)
    }

    /// The active scene, if there is one, to be used in place.
    pub fn get_active_scene(&mut self) -> (scene: Option<&mut Scene<Active>>)
        ensures
            final(self).staged() == old(self).staged(),
            final(self).staged_id() == old(self).staged_id(),
            final(self).active_id() == old(self).active_id(),
            final(self).scenes() == old(self).scenes(),
            final(self).counter() == old(self).counter(),
            old(self).active() is None ==> scene is None && final(self).active() is None,
            old(self).active() is Some ==> {
                &&& scene is Some
                &&& *scene->0 == old(self).active()->0
                &&& final(self).active() == Some(*final(scene->0))
            },
    {
        self.active_scene.as_mut()
    }

    /// The staged scene, to be prepared in place.
    pub fn get_staged_scene(&mut self) -> (scene: &mut Scene<Staged>)
        requires
            old(self).staged() is Some,
        ensures
            *scene == old(self).staged()->0,
            final(self).staged() == Some(*final(scene)),
            final(self).staged_id() == old(self).staged_id(),
            final(self).active() == old(self).active(),
            final(self).active_id() == old(self).active_id(),
            final(self).scenes() == old(self).scenes(),
            final(self).counter() == old(self).counter(),
    {
        self.staged_scene.as_mut().unwrap()
    }

    /// Activates the staged scene under its id, in place of any active before: its setup
    /// schedule runs on its world, and the active scene keeps the world and gets fresh
    /// render, update and teardown schedules. No scene is staged afterwards.
    pub fn activate_staged_scene<E: SystemExecutor>(&mut self, executor: &mut E)
        requires
            old(self).wf(),
            old(self).staged_id() is Some,
            old(self).staged() is Some,
            old(self).staged()->0.world is Some,
            old(self).staged()->0.state.setup_schedule is Some,
        ensures
            final(self).wf(),
            final(self).active_id() == old(self).staged_id(),
            final(self).active() is Some,
            final(self).active()->0.is_fresh(),
            final(self).active()->0.world_view() == world_after(
                *old(executor),
                old(self).staged()->0.state.setup_schedule,
                old(self).staged()->0.world_view(),
            ),
            same_steps(*final(executor), *old(executor)),
            final(self).staged() is None,
            final(self).staged_id() is None,
            final(self).scenes() == old(self).scenes(),
            final(self).counter() == old(self).counter(),
    {
        let staged_scene_id = self.staged_scene_id.take().unwrap();
        let staged_scene = self.staged_scene.take().unwrap();
        let active_scene = staged_scene.activate(executor);
        self.active_scene = Some(active_scene);
        self.active_scene_id = Some(staged_scene_id);
        proof {
            assert forall|id: i16| #[trigger] self.scenes().contains_key(id) implies 1 <= id
                <= self.counter() by {
                assert(old(self).scenes().contains_key(id));
            }
        }
    }

    /// Stages the stored scene with id `id`, which leaves the store, in place of any staged
    /// before; it gets a new, empty world and fresh schedules. While a scene is active,
    /// nothing is staged and nothing changes.
    pub fn stage_scene(&mut self, id: i16)
        requires
            old(self).wf(),
            old(self).active_id() is None ==> old(self).scenes().contains_key(id),
        ensures
            final(self).wf(),
            old(self).active_id() is Some ==> *final(self) == *old(self),
            old(self).active_id() is None ==> {
                &&& final(self).scenes() == old(self).scenes().remove(id)
                &&& final(self).staged_id() == Some(id)
                &&& final(self).staged() is Some
                &&& final(self).staged()->0.world_view() == Some(WorldView::empty())
                &&& final(self).staged()->0.has_fresh_schedules()
                &&& final(self).active() == old(self).active()
                &&& final(self).active_id() == old(self).active_id()
                &&& final(self).counter() == old(self).counter()
            },
    {
        if self.active_scene_id.is_some() {
            return;
        }
        let inactive_scene = self.scenes.remove(&id).unwrap();
        let staged_scene = inactive_scene.into_staged();
        self.staged_scene = Some(staged_scene);
        self.staged_scene_id = Some(id);
    }

    /// Stores a new scene under the next id and stages it; while a scene is active it stays
    /// stored. The interface file is not read.
    pub fn load_scene_interface(&mut self, interface_path: &str)
        requires
            old(self).wf(),
            old(self).counter() < i16::MAX,
        ensures
            final(self).wf(),
            final(self).counter() == old(self).counter() + 1,
            old(self).active_id() is Some ==> {
                &&& final(self).scenes().contains_key(final(self).counter())
                &&& final(self).staged_id() == old(self).staged_id()
            },
            old(self).active_id() is None ==> {
                &&& final(self).scenes() == old(self).scenes()
                &&& final(self).staged_id() == Some(final(self).counter())
                &&& final(self).staged() is Some
                &&& final(self).staged()->0.world_view() == Some(WorldView::empty())
                &&& final(self).staged()->0.has_fresh_schedules()
            },
            final(self).active() == old(self).active(),
            final(self).active_id() == old(self).active_id(),
    {
        let scene_id = self.generate_and_register_scene();
        self.stage_scene(scene_id);
        proof {
            if old(self).active_id() is None {
                assert(self.scenes() =~= old(self).scenes());
            }
        }
    }
}

impl Manager for SceneManager {
    /// Starts the manager; there is nothing to set up.
    fn startup(&mut self)
        ensures
            *final(self) == *old(self),
    {
    }

    /// Drops every stored scene.
    fn shutdown(&mut self)
        ensures
            final(self).scenes() == Map::<i16, Scene<Inactive>>::empty(),
            final(self).counter() == old(self).counter(),
            final(self).active() == old(self).active(),
            final(self).active_id() == old(self).active_id(),
            final(self).staged() == old(self).staged(),
            final(self).staged_id() == old(self).staged_id(),
    {
        self.scenes.clear();
    }

    /// Does nothing.
    fn update(&mut self, _scene: &mut Scene<Active>)
        ensures
            *final(self) == *old(self),
    {
    }
}

} // verus!
