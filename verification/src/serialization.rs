use vstd::prelude::*;

use std::collections::HashMap;

use crate::components::{
    component_name, contains_kind, kinds_of, reflects_component, Component, ComponentData, spec_component_name, spec_reflects_component,
    ComponentKind,
};
use crate::world::{
    lemma_with_component_aligned, lemma_with_component_values, TypeRegistry, World, WorldView,
};

verus! {

broadcast use vstd::std_specs::hash::group_hash_axioms;

/// Why a scene could not be written into a world.
pub enum SceneSpawnError {
    /// The type is registered, but not as a component.
    UnregisteredComponent { name: String },
    /// The type is not registered.
    UnregisteredType { name: String },
}

/// The cause of a spawn error, by component kind.
#[derive(Clone, Copy, PartialEq, Eq, Structural, Debug)]
pub enum SpawnFailure {
    UnregisteredComponent(ComponentKind),
    UnregisteredType(ComponentKind),
}

impl SceneSpawnError {
    /// Whether the error reports `f`, naming its type.
    pub open spec fn reports(self, f: SpawnFailure) -> bool {
        match (self, f) {
            (
                SceneSpawnError::UnregisteredComponent { name },
                SpawnFailure::UnregisteredComponent(k),
            ) => name@ == spec_component_name(k),
            (
                SceneSpawnError::UnregisteredType { name },
                SpawnFailure::UnregisteredType(k),
            ) => name@ == spec_component_name(k),
            _ => false,
        }
    }
}

/// An entity of a scene: its id in the scene, and its component kinds in order.
pub struct SerdeEntity {
    pub entity: u32,
    pub components: Vec<Component>,
}

/// An entity as seen by a scene builder.
pub type DynamicEntity = SerdeEntity;

impl View for SerdeEntity {
    type V = (u32, Seq<ComponentData>);

    open spec fn view(&self) -> (u32, Seq<ComponentData>) {
        (self.entity, self.components@.map_values(|c: Component| c@))
    }
}

/// A scene as it is saved: its entities, in order.
pub struct SerdeScene {
    pub entities: Vec<SerdeEntity>,
}

/// A scene built from a world.
pub type DynamicScene = SerdeScene;

impl View for SerdeScene {
    type V = Seq<(u32, Seq<ComponentData>)>;

    open spec fn view(&self) -> Seq<(u32, Seq<ComponentData>)> {
        self.entities@.map_values(|e: SerdeEntity| e@)
    }
}

impl Default for SerdeScene {
    fn default() -> (s: Self)
        ensures
            s@ == Seq::<(u32, Seq<ComponentData>)>::empty(),
    {
        let s = SerdeScene { entities: Vec::new() };
        proof {
            assert(s@ =~= Seq::<(u32, Seq<ComponentData>)>::empty());
        }
        s
    }
}

/// Maps the entity ids of a scene to the entities of the world it was written into.
pub struct EntityMap {
    map: HashMap<u32, u32>,
}

impl View for EntityMap {
    type V = Map<u32, u32>;

    closed spec fn view(&self) -> Map<u32, u32> {
        self.map@
    }
}

impl EntityMap {
    /// A map without entries.
    pub fn new() -> (m: Self)
        ensures
            m@ == Map::<u32, u32>::empty(),
    {
        EntityMap { map: HashMap::new() }
    }

    /// The world entity that scene entity `id` was written into, if any.
    pub fn get(&self, id: u32) -> (e: Option<u32>)
        ensures
            match e {
                Some(e) => self@.contains_key(id) && self@[id] == e,
                None => !self@.contains_key(id),
            },
    {
        match self.map.get(&id) {
            Some(e) => Some(*e),
            None => None,
        }
    }

    /// Records that scene entity `id` was written into world entity `e`.
    pub fn insert(&mut self, id: u32, e: u32)
        ensures
            final(self)@ == old(self)@.insert(id, e),
    {
        self.map.insert(id, e);
    }
}

impl Default for EntityMap {
    fn default() -> (m: Self)
        ensures
            m@ == Map::<u32, u32>::empty(),
    {
        EntityMap::new()
    }
}

/// The outcome of attaching one component of kind `kind` to entity `e`, with the types
/// `registry` knows: unknown types and types that are not components fail.
pub open spec fn write_component(
    w: WorldView,
    e: int,
    c: ComponentData,
    registry: Set<ComponentKind>,
) -> Result<WorldView, SpawnFailure> {
    let kind = c.kind();
    if !registry.contains(kind) {
        Err(SpawnFailure::UnregisteredType(kind))
    } else if !spec_reflects_component(kind) {
        Err(SpawnFailure::UnregisteredComponent(kind))
    } else {
        Ok(w.with_component(e, c))
    }
}

/// The world after attaching `kinds` to entity `e` one by one, up to the first failure.
pub open spec fn write_components(
    w: WorldView,
    e: int,
    kinds: Seq<ComponentData>,
    registry: Set<ComponentKind>,
) -> (WorldView, Option<SpawnFailure>)
    decreases kinds.len(),
{
    if kinds.len() == 0 {
        (w, None)
    } else {
        let (w1, failure) = write_components(w, e, kinds.drop_last(), registry);
        if failure is Some {
            (w1, failure)
        } else {
            match write_component(w1, e, kinds.last(), registry) {
                Ok(w2) => (w2, None),
                Err(f) => (w1, Some(f)),
            }
        }
    }
}

/// The world entity that scene entity `id` is written into: the one the map names, or a new
/// entity, which the map then records.
pub open spec fn target_entity(w: WorldView, map: Map<u32, u32>, id: u32) -> (WorldView, Map<u32, u32>, int) {
    if map.contains_key(id) {
        (w, map, map[id] as int)
    } else {
        (w.with_new_entity(), map.insert(id, w.entities.len() as u32), w.entities.len() as int)
    }
}

/// The world and the entity map after writing `entities` one by one, up to the first failure.
pub open spec fn write_entities(
    w: WorldView,
    map: Map<u32, u32>,
    entities: Seq<(u32, Seq<ComponentData>)>,
    registry: Set<ComponentKind>,
) -> (WorldView, Map<u32, u32>, Option<SpawnFailure>)
    decreases entities.len(),
{
    if entities.len() == 0 {
        (w, map, None)
    } else {
        let (w1, m1, failure) = write_entities(w, map, entities.drop_last(), registry);
        if failure is Some {
            (w1, m1, failure)
        } else {
            let (w2, m2, e) = target_entity(w1, m1, entities.last().0);
            let (w3, f3) = write_components(w2, e, entities.last().1, registry);
            (w3, m2, f3)
        }
    }
}

/// Whether every entity that `map` names is an entity of `w`.
pub open spec fn map_targets_entities(w: WorldView, map: Map<u32, u32>) -> bool {
    forall|id: u32| #[trigger] map.contains_key(id) ==> map[id] < w.entities.len()
}

proof fn lemma_write_components_keeps(w: WorldView, e: int, kinds: Seq<ComponentData>, registry: Set<ComponentKind>)
    requires
        w.has_entity(e),
    ensures
        write_components(w, e, kinds, registry).0.entities.len() == w.entities.len(),
        write_components(w, e, kinds, registry).0.type_registry_arc == w.type_registry_arc,
    decreases kinds.len(),
{
    if kinds.len() > 0 {
        lemma_write_components_keeps(w, e, kinds.drop_last(), registry);
    }
}

/// Attaching components keeps every entity and every component already attached, and once
/// it succeeds every listed component is attached to `e`.
proof fn lemma_write_components_attaches(
    w: WorldView,
    e: int,
    kinds: Seq<ComponentData>,
    registry: Set<ComponentKind>,
)
    requires
        w.has_entity(e),
    ensures
        ({
            let (r, failure) = write_components(w, e, kinds, registry);
            &&& r.entities.len() == w.entities.len()
            &&& forall|j: int, k: ComponentKind|
                0 <= j < w.entities.len() && #[trigger] w.entities[j].contains(k) ==> r.entities[j].contains(k)
            &&& failure is None ==> forall|c: ComponentData| #[trigger] kinds.contains(c) ==> r.entities[e].contains(c.kind())
        }),
    decreases kinds.len(),
{
    if kinds.len() > 0 {
        let rest = kinds.drop_last();
        lemma_write_components_attaches(w, e, rest, registry);
        let (w1, f1) = write_components(w, e, rest, registry);
        if f1 is None {
            let last = kinds.last();
            match write_component(w1, e, last, registry) {
                Ok(w2) => {
                    assert(w2 == w1.with_component(e, last));
                    assert forall|j: int, k: ComponentKind|
                        0 <= j < w1.entities.len() && #[trigger] w1.entities[j].contains(k) implies w2.entities[j].contains(k) by {
                        if j == e && !w1.entities[e].contains(last.kind()) {
                            let i = w1.entities[j].index_of(k);
                            assert(w2.entities[j][i] == k);
                        }
                    }
                    assert forall|c: ComponentData| #[trigger] kinds.contains(c) implies w2.entities[e].contains(c.kind()) by {
                        if c == last {
                            if !w1.entities[e].contains(last.kind()) {
                                assert(w2.entities[e][w1.entities[e].len() as int] == last.kind());
                            }
                        } else {
                            let i = kinds.index_of(c);
                            assert(rest[i] == c);
                            assert(rest.contains(c));
                            assert(w1.entities[e].contains(c.kind()));
                        }
                    }
                },
                Err(_) => {},
            }
        }
    }
}

/// Once attaching components `cs` to entity `e` succeeds, and no two of them share a kind,
/// the entity holds each of them as its component of that kind: a component it carried
/// before takes the new value.
#[verifier::rlimit(50)]
pub proof fn lemma_written_components_take_scene_values(
    w: WorldView,
    e: int,
    cs: Seq<ComponentData>,
    registry: Set<ComponentKind>,
)
    requires
        w.aligned(),
        w.has_entity(e),
        kinds_of(cs).no_duplicates(),
        write_components(w, e, cs, registry).1 is None,
    ensures
        write_components(w, e, cs, registry).0.aligned(),
        forall|j: int|
            0 <= j < cs.len() ==> write_components(w, e, cs, registry).0.entities[e].contains(
                (#[trigger] cs[j]).kind(),
            ) && write_components(w, e, cs, registry).0.component_of(e, cs[j].kind()) == cs[j],
    decreases cs.len(),
{
    if cs.len() > 0 {
        let rest = cs.drop_last();
        let last = cs.last();
        let n = cs.len() - 1;
        assert(kinds_of(rest) =~= kinds_of(cs).drop_last());
        assert(kinds_of(rest).no_duplicates());
        let (w1, f1) = write_components(w, e, rest, registry);
        assert(f1 is None);
        lemma_written_components_take_scene_values(w, e, rest, registry);
        lemma_write_components_keeps(w, e, rest, registry);
        assert(w1.has_entity(e));
        let w2 = w1.with_component(e, last);
        assert(write_components(w, e, cs, registry).0 == w2);
        lemma_with_component_aligned(w1, e, last);
        assert forall|j: int|
            0 <= j < cs.len() implies w2.entities[e].contains((#[trigger] cs[j]).kind())
                && w2.component_of(e, cs[j].kind()) == cs[j] by {
            if j == n {
                lemma_with_component_values(w1, e, last, last.kind());
            } else {
                assert(cs[j] == rest[j]);
                assert(kinds_of(cs)[j] != kinds_of(cs)[n]);
                lemma_with_component_values(w1, e, last, cs[j].kind());
            }
        }
    }
}

/// Whether scene entity `entity` has been written into `w`: `map` names its world entity,
/// which carries every one of its components.
pub open spec fn entity_written(w: WorldView, map: Map<u32, u32>, entity: (u32, Seq<ComponentData>)) -> bool {
    &&& map.contains_key(entity.0)
    &&& w.has_entity(map[entity.0] as int)
    &&& forall|c: ComponentData| #[trigger] entity.1.contains(c) ==> w.entities[map[entity.0] as int].contains(c.kind())
}

/// Writing entities keeps what the entity map names and the components already attached, and
/// keeps the map naming entities of the world.
proof fn lemma_write_entities_monotone(
    w: WorldView,
    map: Map<u32, u32>,
    entities: Seq<(u32, Seq<ComponentData>)>,
    registry: Set<ComponentKind>,
)
    requires
        map_targets_entities(w, map),
        w.entities.len() + entities.len() <= u32::MAX,
    ensures
        ({
            let (r, m, failure) = write_entities(w, map, entities, registry);
            &&& map_targets_entities(r, m)
            &&& w.entities.len() <= r.entities.len() <= w.entities.len() + entities.len()
            &&& forall|id: u32| #[trigger] map.contains_key(id) ==> m.contains_key(id) && m[id] == map[id]
            &&& forall|j: int, k: ComponentKind|
                0 <= j < w.entities.len() && #[trigger] w.entities[j].contains(k) ==> r.entities[j].contains(k)
            &&& failure is None ==> forall|i: int| 0 <= i < entities.len() ==> entity_written(r, m, #[trigger] entities[i])
        }),
    decreases entities.len(),
{
    if entities.len() > 0 {
        let rest = entities.drop_last();
        lemma_write_entities_monotone(w, map, rest, registry);
        let (w1, m1, f1) = write_entities(w, map, rest, registry);
        if f1 is None {
            let last = entities.last();
            let (w2, m2, e) = target_entity(w1, m1, last.0);
            assert(map_targets_entities(w2, m2)) by {
                assert forall|id: u32| #[trigger] m2.contains_key(id) implies m2[id] < w2.entities.len() by {
                    if id != last.0 || m1.contains_key(last.0) {
                        assert(m1.contains_key(id));
                    }
                }
            }
            assert(w2.has_entity(e));
            assert forall|j: int, k: ComponentKind|
                0 <= j < w1.entities.len() && #[trigger] w1.entities[j].contains(k) implies w2.entities[j].contains(k) by {
                if !m1.contains_key(last.0) {
                    assert(w2.entities[j] == w1.entities[j]);
                }
            }
            lemma_write_components_attaches(w2, e, last.1, registry);
            let (w3, f3) = write_components(w2, e, last.1, registry);
            assert(map_targets_entities(w3, m2)) by {
                assert forall|id: u32| #[trigger] m2.contains_key(id) implies m2[id] < w3.entities.len() by {
                }
            }
            if f3 is None {
                assert forall|i: int| 0 <= i < entities.len() implies entity_written(w3, m2, #[trigger] entities[i]) by {
                    if i < entities.len() - 1 {
                        assert(entities[i] == rest[i]);
                        assert(entity_written(w1, m1, rest[i]));
                        let id = rest[i].0;
                        assert(m1.contains_key(id));
                        assert(m2[id] == m1[id]);
                        assert forall|c: ComponentData| #[trigger] rest[i].1.contains(c) implies w3.entities[m2[id] as int].contains(c.kind()) by {
                            assert(w1.entities[m1[id] as int].contains(c.kind()));
                        }
                    } else {
                        assert(entities[i] == last);
                    }
                }
            }
        }
    }
}

/// A write that succeeds writes every entity of the scene: the entity map names a world
/// entity for each, which carries every one of its components.
pub proof fn lemma_successful_write_writes_every_entity(
    w: WorldView,
    map: Map<u32, u32>,
    entities: Seq<(u32, Seq<ComponentData>)>,
    registry: Set<ComponentKind>,
)
    requires
        map_targets_entities(w, map),
        w.entities.len() + entities.len() <= u32::MAX,
        write_entities(w, map, entities, registry).2 is None,
    ensures
        forall|i: int|
            0 <= i < entities.len() ==> entity_written(
                write_entities(w, map, entities, registry).0,
                write_entities(w, map, entities, registry).1,
                #[trigger] entities[i],
            ),
{
    lemma_write_entities_monotone(w, map, entities, registry);
}

/// Once attaching components has failed, later components change nothing.
proof fn lemma_components_failure_sticks(
    w: WorldView,
    e: int,
    kinds: Seq<ComponentData>,
    registry: Set<ComponentKind>,
    j: int,
)
    requires
        0 <= j <= kinds.len(),
        write_components(w, e, kinds.take(j), registry).1 is Some,
    ensures
        write_components(w, e, kinds, registry) == write_components(w, e, kinds.take(j), registry),
    decreases kinds.len(),
{
    if j < kinds.len() {
        assert(kinds.drop_last().take(j) =~= kinds.take(j));
        lemma_components_failure_sticks(w, e, kinds.drop_last(), registry, j);
    } else {
        assert(kinds.take(j) =~= kinds);
    }
}

/// Once writing entities has failed, later entities change nothing.
proof fn lemma_entities_failure_sticks(
    w: WorldView,
    map: Map<u32, u32>,
    entities: Seq<(u32, Seq<ComponentData>)>,
    registry: Set<ComponentKind>,
    i: int,
)
    requires
        0 <= i <= entities.len(),
        write_entities(w, map, entities.take(i), registry).2 is Some,
    ensures
        write_entities(w, map, entities, registry) == write_entities(w, map, entities.take(i), registry),
    decreases entities.len(),
{
    if i < entities.len() {
        assert(entities.drop_last().take(i) =~= entities.take(i));
        lemma_entities_failure_sticks(w, map, entities.drop_last(), registry, i);
    } else {
        assert(entities.take(i) =~= entities);
    }
}

/// Whether component `c` can be written with the types of `registry`: the type of its kind
/// is registered, and as a component.
pub open spec fn writable(c: ComponentData, registry: Set<ComponentKind>) -> bool {
    registry.contains(c.kind()) && spec_reflects_component(c.kind())
}

/// Why component `c` cannot be written with the types of `registry`.
pub open spec fn failure_of(c: ComponentData, registry: Set<ComponentKind>) -> SpawnFailure {
    if !registry.contains(c.kind()) {
        SpawnFailure::UnregisteredType(c.kind())
    } else {
        SpawnFailure::UnregisteredComponent(c.kind())
    }
}

/// Whether every component of every entity of `entities` can be written.
pub open spec fn all_writable(
    entities: Seq<(u32, Seq<ComponentData>)>,
    registry: Set<ComponentKind>,
) -> bool {
    forall|i: int, j: int|
        0 <= i < entities.len() && 0 <= j < entities[i].1.len() ==> writable(
            #[trigger] entities[i].1[j],
            registry,
        )
}

/// Whether component `j` of entity `i` is the first component of `entities`, entity by entity
/// and within an entity in order, that cannot be written.
pub open spec fn first_unwritable(
    entities: Seq<(u32, Seq<ComponentData>)>,
    registry: Set<ComponentKind>,
    i: int,
    j: int,
) -> bool {
    &&& 0 <= i < entities.len()
    &&& 0 <= j < entities[i].1.len()
    &&& !writable(entities[i].1[j], registry)
    &&& all_writable(entities.take(i), registry)
    &&& forall|j2: int| 0 <= j2 < j ==> writable(#[trigger] entities[i].1[j2], registry)
}

/// Attaching components fails exactly when one cannot be written, and then for the first such.
proof fn lemma_write_components_failure(
    w: WorldView,
    e: int,
    kinds: Seq<ComponentData>,
    registry: Set<ComponentKind>,
)
    ensures
        ({
            let failure = write_components(w, e, kinds, registry).1;
            &&& failure is None <==> forall|j: int| 0 <= j < kinds.len() ==> writable(#[trigger] kinds[j], registry)
            &&& failure is Some ==> exists|j: int|
                0 <= j < kinds.len() && !writable(kinds[j], registry) && failure->0 == failure_of(
                    kinds[j],
                    registry,
                ) && forall|j2: int| 0 <= j2 < j ==> writable(#[trigger] kinds[j2], registry)
        }),
    decreases kinds.len(),
{
    if kinds.len() > 0 {
        let rest = kinds.drop_last();
        lemma_write_components_failure(w, e, rest, registry);
        let (w1, f1) = write_components(w, e, rest, registry);
        if f1 is Some {
            let j = choose|j: int|
                0 <= j < rest.len() && !writable(rest[j], registry) && f1->0 == failure_of(
                    rest[j],
                    registry,
                ) && forall|j2: int| 0 <= j2 < j ==> writable(#[trigger] rest[j2], registry);
            assert(kinds[j] == rest[j]);
            assert forall|j2: int| 0 <= j2 < j implies writable(#[trigger] kinds[j2], registry) by {
                assert(kinds[j2] == rest[j2]);
            }
        } else {
            assert forall|j2: int| 0 <= j2 < kinds.len() - 1 implies writable(#[trigger] kinds[j2], registry) by {
                assert(kinds[j2] == rest[j2]);
                assert(writable(rest[j2], registry));
            }
        }
    }
}

/// Writing entities fails exactly when a component cannot be written, and then for the first
/// such component.
proof fn lemma_write_entities_failure(
    w: WorldView,
    map: Map<u32, u32>,
    entities: Seq<(u32, Seq<ComponentData>)>,
    registry: Set<ComponentKind>,
)
    ensures
        ({
            let failure = write_entities(w, map, entities, registry).2;
            &&& failure is None <==> all_writable(entities, registry)
            &&& failure is Some ==> exists|i: int, j: int|
                first_unwritable(entities, registry, i, j) && failure->0 == failure_of(
                    #[trigger] entities[i].1[j],
                    registry,
                )
        }),
    decreases entities.len(),
{
    if entities.len() == 0 {
    } else {
        let rest = entities.drop_last();
        lemma_write_entities_failure(w, map, rest, registry);
        let (w1, m1, f1) = write_entities(w, map, rest, registry);
        let n = entities.len() - 1;
        assert forall|i: int| 0 <= i < n implies #[trigger] entities[i] == rest[i] by {}
        if f1 is Some {
            let (i, j) = choose|i: int, j: int|
                first_unwritable(rest, registry, i, j) && f1->0 == failure_of(
                    #[trigger] rest[i].1[j],
                    registry,
                );
            assert(entities.take(i) =~= rest.take(i));
            assert(first_unwritable(entities, registry, i, j));
            assert(!all_writable(entities, registry)) by {
                assert(!writable(entities[i].1[j], registry));
            }
            assert(!all_writable(rest, registry));
        } else {
            let last = entities.last();
            let (w2, m2, e) = target_entity(w1, m1, last.0);
            lemma_write_components_failure(w2, e, last.1, registry);
            let f3 = write_components(w2, e, last.1, registry).1;
            assert(all_writable(rest, registry));
            assert(rest =~= entities.take(n));
            if f3 is Some {
                let j = choose|j: int|
                    0 <= j < last.1.len() && !writable(last.1[j], registry) && f3->0 == failure_of(
                        last.1[j],
                        registry,
                    ) && forall|j2: int| 0 <= j2 < j ==> writable(#[trigger] last.1[j2], registry);
                assert(first_unwritable(entities, registry, n, j));
                assert(!all_writable(entities, registry)) by {
                    assert(!writable(entities[n].1[j], registry));
                }
            } else {
                assert forall|i: int, j: int|
                    0 <= i < entities.len() && 0 <= j < entities[i].1.len() implies writable(
                    #[trigger] entities[i].1[j],
                    registry,
                ) by {
                    if i < n {
                        assert(writable(rest[i].1[j], registry));
                    } else {
                        assert(writable(last.1[j], registry));
                    }
                }
            }
        }
    }
}

impl SerdeScene {
    /// Writes the scene's entities into `world`, in order, with the types that the world's
    /// shared type registry knows. Each scene entity goes into the world entity that
    /// `entity_map` names for it, or into a new entity, which the map then records; each of
    /// its components is attached to that entity (a component of a kind it carries already takes
    /// the new value).
    /// The first component whose type is not registered, or not registered as a component,
    /// stops the writing with an error that names the type; what was written before stays.
    /// No component kind refers to other entities, so no entity references are remapped.
    pub fn write_to_world(&self, world: &mut World, entity_map: &mut EntityMap) -> (r: Result<(), SceneSpawnError>)
        requires
            old(world)@.type_registry_arc is Some,
            map_targets_entities(old(world)@, old(entity_map)@),
            old(world)@.entities.len() + self.entities@.len() < u32::MAX,
        ensures
            ({
                let (w, m, failure) = write_entities(
                    old(world)@,
                    old(entity_map)@,
                    self@,
                    old(world)@.type_registry_arc->0,
                );
                &&& final(world)@ == w
                &&& final(entity_map)@ == m
                &&& match failure {
                    None => r is Ok,
                    Some(f) => r is Err && r->Err_0.reports(f),
                }
            }),
            r is Ok <==> all_writable(self@, old(world)@.type_registry_arc->0),
            r is Err ==> exists|i: int, j: int|
                first_unwritable(self@, old(world)@.type_registry_arc->0, i, j) && r->Err_0.reports(
                    failure_of(#[trigger] self@[i].1[j], old(world)@.type_registry_arc->0),
                ),
    {
        let r = self.write_entities_into(world, entity_map);
        proof {
            lemma_write_entities_failure(
                old(world)@,
                old(entity_map)@,
                self@,
                old(world)@.type_registry_arc->0,
            );
        }
        r
    }

    /// Writes the scene's entities into `world` as `write_to_world` describes.
    fn write_entities_into(&self, world: &mut World, entity_map: &mut EntityMap) -> (r: Result<(), SceneSpawnError>)
        requires
            old(world)@.type_registry_arc is Some,
            map_targets_entities(old(world)@, old(entity_map)@),
            old(world)@.entities.len() + self.entities@.len() < u32::MAX,
        ensures
            ({
                let (w, m, failure) = write_entities(
                    old(world)@,
                    old(entity_map)@,
                    self@,
                    old(world)@.type_registry_arc->0,
                );
                &&& final(world)@ == w
                &&& final(entity_map)@ == m
                &&& match failure {
                    None => r is Ok,
                    Some(f) => r is Err && r->Err_0.reports(f),
                }
            }),
    {
        let registry = world.type_registry_arc().unwrap();
        let ghost reg = old(world)@.type_registry_arc->0;
        let ghost w0 = world@;
        let ghost m0 = entity_map@;
        let mut i: usize = 0;
        while i < self.entities.len()
            invariant
                i <= self.entities@.len(),
                w0 == old(world)@,
                m0 == old(entity_map)@,
                reg == old(world)@.type_registry_arc->0,
                registry@ == reg,
                w0.entities.len() + self.entities@.len() < u32::MAX,
                world@.entities.len() <= w0.entities.len() + i,
                map_targets_entities(world@, entity_map@),
                world@.type_registry_arc == w0.type_registry_arc,
                (world@, entity_map@, None::<SpawnFailure>) == write_entities(
                    w0,
                    m0,
                    self@.take(i as int),
                    reg,
                ),
            decreases self.entities@.len() - i,
        {
            let scene_entity = &self.entities[i];
            let ghost w1 = world@;
            let ghost m1 = entity_map@;
            let entity = match entity_map.get(scene_entity.entity) {
                Some(e) => e,
                None => {
                    let e = world.spawn();
                    entity_map.insert(scene_entity.entity, e);
                    e
                },
            };
            let ghost w2 = world@;
            proof {
                let (tw, tm, te) = target_entity(w1, m1, scene_entity.entity);
                assert(tw == w2);
                assert(tm == entity_map@);
                assert(te == entity as int);
                assert(map_targets_entities(world@, entity_map@)) by {
                    assert forall|id: u32| #[trigger] entity_map@.contains_key(id) implies entity_map@[id]
                        < world@.entities.len() by {
                        if id != scene_entity.entity {
                            assert(m1.contains_key(id));
                        }
                    }
                }
                assert(self@.take(i as int + 1).drop_last() =~= self@.take(i as int));
                assert(self@.take(i as int + 1).last() == scene_entity@);
            }
            let mut j: usize = 0;
            while j < scene_entity.components.len()
                invariant
                    j <= scene_entity.components@.len(),
                    i < self.entities@.len(),
                    w0 == old(world)@,
                    m0 == old(entity_map)@,
                    reg == old(world)@.type_registry_arc->0,
                    scene_entity == &self.entities[i as int],
                    write_entities(w0, m0, self@.take(i as int), reg) == (w1, m1, None::<SpawnFailure>),
                    target_entity(w1, m1, scene_entity.entity) == (w2, entity_map@, entity as int),
                    self@.take(i as int + 1).drop_last() == self@.take(i as int),
                    self@.take(i as int + 1).last() == scene_entity@,
                    registry@ == reg,
                    world@.has_entity(entity as int),
                    world@.entities.len() == w2.entities.len(),
                    world@.type_registry_arc == w0.type_registry_arc,
                    (world@, None::<SpawnFailure>) == write_components(
                        w2,
                        entity as int,
                        scene_entity.components@.map_values(|c: Component| c@).take(j as int),
                        reg,
                    ),
                decreases scene_entity.components@.len() - j,
            {
                let comp = &scene_entity.components[j];
                let kind = comp.kind();
                proof {
                    let comps = scene_entity.components@.map_values(|c: Component| c@);
                    assert(comps.take(j as int + 1).drop_last() =~= comps.take(j as int));
                    assert(comps.take(j as int + 1).last() == comp@);
                }
                if !registry.contains(kind) || !reflects_component(kind) {
                    proof {
                        let comps = scene_entity.components@.map_values(|c: Component| c@);
                        let f = if !reg.contains(kind) {
                            SpawnFailure::UnregisteredType(kind)
                        } else {
                            SpawnFailure::UnregisteredComponent(kind)
                        };
                        assert(write_component(world@, entity as int, comp@, reg) == Err::<
                            WorldView,
                            SpawnFailure,
                        >(f));
                        assert(write_components(w2, entity as int, comps.take(j as int + 1), reg)
                            == (world@, Some(f)));
                        lemma_components_failure_sticks(w2, entity as int, comps, reg, j as int + 1);
                        assert(write_entities(w0, m0, self@.take(i as int + 1), reg) == (
                            world@,
                            entity_map@,
                            Some(f),
                        ));
                        lemma_entities_failure_sticks(w0, m0, self@, reg, i as int + 1);
                    }
                    if !registry.contains(kind) {
                        return Err(SceneSpawnError::UnregisteredType { name: component_name(kind) });
                    } else {
                        return Err(
                            SceneSpawnError::UnregisteredComponent { name: component_name(kind) },
                        );
                    }
                }
                world.insert_component(entity, comp.duplicate());
                j = j + 1;
            }
            proof {
                let comps = scene_entity.components@.map_values(|c: Component| c@);
                assert(comps.take(j as int) =~= comps);
            }
            i = i + 1;
        }
        proof {
            assert(self@.take(i as int) =~= self@);
        }
        Ok(())
    }
}


/// The components of `cs` that a scene carries: those whose type `registry` knows and that
/// reflect as components, in order.
pub open spec fn extractable(cs: Seq<ComponentData>, registry: Set<ComponentKind>) -> Seq<ComponentData>
    decreases cs.len(),
{
    if cs.len() == 0 {
        Seq::empty()
    } else {
        let rest = extractable(cs.drop_last(), registry);
        if registry.contains(cs.last().kind()) && spec_reflects_component(cs.last().kind()) {
            rest.push(cs.last())
        } else {
            rest
        }
    }
}

/// The components of `cs` that a scene carries, with the types that `registry` knows.
pub fn extract_components(cs: &Vec<Component>, registry: &TypeRegistry) -> (r: Vec<Component>)
    ensures
        r@.map_values(|c: Component| c@) == extractable(cs@.map_values(|c: Component| c@), registry@),
{
    let ghost all = cs@.map_values(|c: Component| c@);
    let mut r: Vec<Component> = Vec::new();
    let mut j: usize = 0;
    while j < cs.len()
        invariant
            j <= cs@.len(),
            all == cs@.map_values(|c: Component| c@),
            r@.map_values(|c: Component| c@) == extractable(all.take(j as int), registry@),
        decreases cs@.len() - j,
    {
        let kind = cs[j].kind();
        let ghost prev = r@;
        proof {
            assert(all.take(j as int + 1).drop_last() =~= all.take(j as int));
            assert(all.take(j as int + 1).last() == cs@[j as int]@);
        }
        if registry.contains(kind) && reflects_component(kind) {
            r.push(cs[j].duplicate());
            proof {
                assert(r@.map_values(|c: Component| c@) =~= prev.map_values(|c: Component| c@).push(
                    cs@[j as int]@,
                ));
            }
        }
        j = j + 1;
    }
    proof {
        assert(all.take(j as int) =~= all);
    }
    r
}

/// Whether a component of kind `k` has no component reflection: the geometry type (a plain
/// value), the file-menu save marker, the renderable component and the egui component. Every
/// other kind is declared a reflected component.
pub open spec fn lacks_component_reflection(k: ComponentKind) -> bool {
    k == ComponentKind::GeometryType || k == ComponentKind::FileMenuSaveComponent || k
        == ComponentKind::RenderableComponent || k == ComponentKind::EguiComponent
}

/// A component whose type is registered and declared a reflected component is carried into
/// the scene: `extractable` keeps it, and attaching it to a world entity succeeds.
pub proof fn lemma_registered_components_are_kept(
    cs: Seq<ComponentData>,
    registry: Set<ComponentKind>,
    c: ComponentData,
    w: WorldView,
    e: int,
)
    requires
        registry.contains(c.kind()),
        !lacks_component_reflection(c.kind()),
    ensures
        cs.contains(c) ==> extractable(cs, registry).contains(c),
        write_component(w, e, c, registry) == Ok::<WorldView, SpawnFailure>(w.with_component(e, c)),
    decreases cs.len(),
{
    if cs.len() > 0 && cs.contains(c) {
        let rest = cs.drop_last();
        if cs.last() == c {
            let r = extractable(rest, registry);
            assert(extractable(cs, registry) == r.push(c));
            assert(r.push(c)[r.len() as int] == c);
        } else {
            let i = cs.index_of(c);
            assert(rest[i] == c);
            lemma_registered_components_are_kept(rest, registry, c, w, e);
            let r = extractable(rest, registry);
            assert(r.contains(c));
            if registry.contains(cs.last().kind()) && spec_reflects_component(cs.last().kind()) {
                let j = r.index_of(c);
                assert(r.push(cs.last())[j] == c);
            }
        }
    }
}

/// A registered component of a kind without component reflection is refused as an
/// unregistered component, and a scene never carries one.
pub proof fn lemma_unreflected_components_are_refused(
    cs: Seq<ComponentData>,
    registry: Set<ComponentKind>,
    c: ComponentData,
    w: WorldView,
    e: int,
)
    requires
        registry.contains(c.kind()),
        lacks_component_reflection(c.kind()),
    ensures
        !extractable(cs, registry).contains(c),
        write_component(w, e, c, registry) == Err::<WorldView, SpawnFailure>(
            SpawnFailure::UnregisteredComponent(c.kind()),
        ),
    decreases cs.len(),
{
    if cs.len() > 0 {
        lemma_unreflected_components_are_refused(cs.drop_last(), registry, c, w, e);
        let r = extractable(cs.drop_last(), registry);
        if registry.contains(cs.last().kind()) && spec_reflects_component(cs.last().kind()) {
            assert forall|j: int| 0 <= j < r.len() + 1 implies r.push(cs.last())[j] != c by {
                if j < r.len() {
                    assert(r[j] != c) by {
                        if r[j] == c {
                            assert(r.contains(c));
                        }
                    }
                }
            }
        }
    }
}

/// Whether entities `i` and `j` of `w` have the same set of component kinds.
pub open spec fn same_archetype(w: WorldView, i: int, j: int) -> bool {
    w.entities[i].to_set() == w.entities[j].to_set()
}

/// Whether entity `i` is the first entity of `w` with its set of component kinds.
pub open spec fn opens_archetype(w: WorldView, i: int) -> bool {
    forall|j: int| 0 <= j < i ==> !same_archetype(w, j, i)
}

/// The ids below `k` of the entities of `w` with the same set of component kinds as entity
/// `i`, ascending.
pub open spec fn archetype_members(w: WorldView, i: int, k: int) -> Seq<int>
    decreases k,
{
    if k <= 0 {
        Seq::empty()
    } else if same_archetype(w, k - 1, i) {
        archetype_members(w, i, k - 1).push(k - 1)
    } else {
        archetype_members(w, i, k - 1)
    }
}

/// The ids of the entities of `w` grouped by their set of component kinds: the groups in
/// the order in which their first entity comes among the first `k` ids, each group's ids
/// ascending.
pub open spec fn archetype_order(w: WorldView, k: int) -> Seq<int>
    decreases k,
{
    if k <= 0 {
        Seq::empty()
    } else if opens_archetype(w, k - 1) {
        archetype_order(w, k - 1) + archetype_members(w, k - 1, w.entities.len() as int)
    } else {
        archetype_order(w, k - 1)
    }
}

/// The saved form of entity `id` of `w`: its id and the components that a scene carries.
pub open spec fn scene_entry(w: WorldView, registry: Set<ComponentKind>, id: int) -> (
    u32,
    Seq<ComponentData>,
) {
    (id as u32, extractable(w.components[id], registry))
}

/// The scene of `w`: its entities grouped by their set of component kinds (the groups in
/// the order in which their first entity comes, each group's ids ascending), each with the
/// components that a scene carries.
pub open spec fn world_scene(w: WorldView, registry: Set<ComponentKind>) -> Seq<(u32, Seq<ComponentData>)> {
    archetype_order(w, w.entities.len() as int).map_values(|id: int| scene_entry(w, registry, id))
}

/// The members of an archetype below `k` are exactly its entities below `k`, ascending.
proof fn lemma_archetype_members(w: WorldView, i: int, k: int)
    requires
        0 <= k,
    ensures
        forall|x: int| #[trigger] archetype_members(w, i, k).contains(x) <==> (0 <= x < k && same_archetype(w, x, i)),
        forall|a: int, b: int|
            0 <= a < b < archetype_members(w, i, k).len() ==> archetype_members(w, i, k)[a]
                < archetype_members(w, i, k)[b],
        forall|a: int| 0 <= a < archetype_members(w, i, k).len() ==> 0 <= #[trigger] archetype_members(w, i, k)[a] < k,
    decreases k,
{
    if k > 0 {
        lemma_archetype_members(w, i, k - 1);
        let r = archetype_members(w, i, k - 1);
        if same_archetype(w, k - 1, i) {
            let m = r.push(k - 1);
            assert forall|x: int| #[trigger] m.contains(x) <==> (0 <= x < k && same_archetype(w, x, i)) by {
                if m.contains(x) {
                    let a = m.index_of(x);
                    if a < r.len() {
                        assert(r[a] == x);
                        assert(r.contains(x));
                    } else {
                        assert(x == k - 1);
                    }
                }
                if 0 <= x < k && same_archetype(w, x, i) {
                    if x == k - 1 {
                        assert(m[r.len() as int] == x);
                    } else {
                        assert(r.contains(x));
                        let a = r.index_of(x);
                        assert(m[a] == x);
                    }
                }
            }
        }
    }
}

/// Every entity below `x + 1` shares its set of component kinds with an entity that opens
/// that set, at or before it.
proof fn lemma_has_opener(w: WorldView, x: int)
    requires
        0 <= x < w.entities.len(),
    ensures
        exists|j: int| 0 <= j <= x && opens_archetype(w, j) && #[trigger] same_archetype(w, x, j),
    decreases x,
{
    if opens_archetype(w, x) {
        assert(same_archetype(w, x, x));
    } else {
        let j0 = choose|j0: int| 0 <= j0 < x && same_archetype(w, j0, x);
        lemma_has_opener(w, j0);
        let j = choose|j: int| 0 <= j <= j0 && opens_archetype(w, j) && #[trigger] same_archetype(w, j0, j);
        assert(same_archetype(w, x, j));
    }
}

/// The first `k` groups list each of their entities once, and no other.
proof fn lemma_archetype_order(w: WorldView, k: int)
    requires
        0 <= k <= w.entities.len(),
    ensures
        archetype_order(w, k).no_duplicates(),
        forall|x: int|
            #[trigger] archetype_order(w, k).contains(x) ==> 0 <= x < w.entities.len() && exists|j: int|
                0 <= j < k && opens_archetype(w, j) && same_archetype(w, x, j),
        forall|x: int, j: int|
            0 <= j < k && opens_archetype(w, j) && 0 <= x < w.entities.len() && same_archetype(w, x, j)
                ==> #[trigger] archetype_order(w, k).contains(x) && #[trigger] same_archetype(w, x, j),
    decreases k,
{
    let n = w.entities.len() as int;
    if k > 0 {
        lemma_archetype_order(w, k - 1);
        let r = archetype_order(w, k - 1);
        if opens_archetype(w, k - 1) {
            lemma_archetype_members(w, k - 1, n);
            let m = archetype_members(w, k - 1, n);
            let o = r + m;
            assert forall|x: int| #[trigger] o.contains(x) <==> (r.contains(x) || m.contains(x)) by {
                if o.contains(x) {
                    let a = o.index_of(x);
                    if a < r.len() {
                        assert(r[a] == x);
                    } else {
                        assert(m[a - r.len()] == x);
                    }
                }
                if r.contains(x) {
                    let a = r.index_of(x);
                    assert(o[a] == x);
                }
                if m.contains(x) {
                    let a = m.index_of(x);
                    assert(o[r.len() + a] == x);
                }
            }
            assert forall|a: int, b: int| 0 <= a < o.len() && 0 <= b < o.len() && a != b implies o[a] != o[b] by {
                if a < r.len() && b < r.len() {
                } else if a >= r.len() && b >= r.len() {
                    let a2 = a - r.len();
                    let b2 = b - r.len();
                    assert(m[a2] == o[a]);
                    assert(m[b2] == o[b]);
                    if a2 < b2 {
                        assert(m[a2] < m[b2]);
                    } else {
                        assert(m[b2] < m[a2]);
                    }
                } else {
                    let (p, q) = if a < r.len() { (a, b - r.len()) } else { (b, a - r.len()) };
                    let x = r[p];
                    assert(r.contains(x));
                    assert(m.contains(m[q]));
                    if x == m[q] {
                        let j = choose|j: int| 0 <= j < k - 1 && opens_archetype(w, j) && same_archetype(w, x, j);
                        assert(same_archetype(w, x, k - 1));
                        assert(same_archetype(w, j, k - 1));
                    }
                }
            }
            assert forall|x: int, j: int|
                0 <= j < k && opens_archetype(w, j) && 0 <= x < n && same_archetype(w, x, j)
                    implies #[trigger] o.contains(x) && #[trigger] same_archetype(w, x, j) by {
                if j < k - 1 {
                    assert(r.contains(x));
                } else {
                    assert(m.contains(x));
                }
            }
            assert forall|x: int| #[trigger] o.contains(x) implies 0 <= x < n && exists|j: int|
                0 <= j < k && opens_archetype(w, j) && same_archetype(w, x, j) by {
                if m.contains(x) {
                    assert(same_archetype(w, x, k - 1));
                }
            }
        } else {
            assert forall|x: int, j: int|
                0 <= j < k && opens_archetype(w, j) && 0 <= x < n && same_archetype(w, x, j)
                    implies #[trigger] r.contains(x) && #[trigger] same_archetype(w, x, j) by {
                assert(j < k - 1);
            }
        }
    }
}

/// A scene made from a world holds each of the world's entities exactly once: every entry
/// is an entity of the world with the components that a scene carries, no id comes twice,
/// and every entity has an entry.
pub proof fn lemma_world_scene_holds_each_entity_once(w: WorldView, registry: Set<ComponentKind>)
    requires
        w.entities.len() <= u32::MAX + 1,
    ensures
        world_scene(w, registry).len() == archetype_order(w, w.entities.len() as int).len(),
        forall|p: int|
            0 <= p < world_scene(w, registry).len() ==> 0 <= #[trigger] archetype_order(
                w,
                w.entities.len() as int,
            )[p] < w.entities.len() && world_scene(w, registry)[p] == scene_entry(
                w,
                registry,
                archetype_order(w, w.entities.len() as int)[p],
            ),
        forall|p: int, q: int|
            0 <= p < q < world_scene(w, registry).len() ==> world_scene(w, registry)[p].0
                != world_scene(w, registry)[q].0,
        forall|id: int|
            0 <= id < w.entities.len() ==> #[trigger] world_scene(w, registry).contains(
                scene_entry(w, registry, id),
            ),
{
    let n = w.entities.len() as int;
    lemma_archetype_order(w, n);
    let o = archetype_order(w, n);
    let sc = world_scene(w, registry);
    assert(sc.len() == o.len());
    assert forall|p: int| 0 <= p < sc.len() implies 0 <= #[trigger] o[p] < n && sc[p] == scene_entry(
        w,
        registry,
        o[p],
    ) by {
        assert(o.contains(o[p]));
    }
    assert forall|p: int, q: int| 0 <= p < q < sc.len() implies sc[p].0 != sc[q].0 by {
        assert(o.contains(o[p]));
        assert(o.contains(o[q]));
        assert(o[p] != o[q]);
    }
    assert forall|id: int| 0 <= id < n implies #[trigger] sc.contains(scene_entry(w, registry, id)) by {
        lemma_has_opener(w, id);
        let j = choose|j: int| 0 <= j <= id && opens_archetype(w, j) && #[trigger] same_archetype(w, id, j);
        assert(o.contains(id));
        let p = o.index_of(id);
        assert(sc[p] == scene_entry(w, registry, id));
    }
}

/// Whether every kind of `a` is among `b`.
fn kinds_within(a: &Vec<ComponentKind>, b: &Vec<ComponentKind>) -> (r: bool)
    ensures
        r == (forall|k: ComponentKind| #[trigger] a@.contains(k) ==> b@.contains(k)),
{
    let mut i: usize = 0;
    while i < a.len()
        invariant
            i <= a@.len(),
            forall|j: int| 0 <= j < i ==> b@.contains(#[trigger] a@[j]),
        decreases a@.len() - i,
    {
        if !contains_kind(b, a[i]) {
            assert(a@.contains(a@[i as int]));
            return false;
        }
        i = i + 1;
    }
    assert forall|k: ComponentKind| #[trigger] a@.contains(k) implies b@.contains(k) by {
        let j = a@.index_of(k);
        assert(b@.contains(a@[j]));
    }
    true
}

/// Whether `a` and `b` hold the same set of component kinds.
fn same_kind_set(a: &Vec<ComponentKind>, b: &Vec<ComponentKind>) -> (r: bool)
    ensures
        r == (a@.to_set() == b@.to_set()),
{
    let r = kinds_within(a, b) && kinds_within(b, a);
    proof {
        if r {
            assert(a@.to_set() =~= b@.to_set());
        } else if a@.to_set() == b@.to_set() {
            assert forall|k: ComponentKind| #[trigger] a@.contains(k) implies b@.contains(k) by {
                assert(a@.to_set().contains(k));
            }
            assert forall|k: ComponentKind| #[trigger] b@.contains(k) implies a@.contains(k) by {
                assert(b@.to_set().contains(k));
            }
        }
    }
    r
}

impl SerdeScene {
    /// The scene of `world`: its entities grouped by their set of component kinds (the
    /// groups in the order in which their first entity comes, each group's ids ascending),
    /// each with its components whose type `type_registry` knows and that reflect as
    /// components.
    pub fn from_world(world: &World, type_registry: &TypeRegistry) -> (s: Self)
        requires
            world@.entities.len() <= u32::MAX + 1,
        ensures
            s@ == world_scene(world@, type_registry@),
    {
        let ghost w = world@;
        let ghost reg = type_registry@;
        let mut entities: Vec<SerdeEntity> = Vec::new();
        let n = world.entity_count();
        let mut i: usize = 0;
        while i < n
            invariant
                w == world@,
                reg == type_registry@,
                n == w.entities.len(),
                n <= u32::MAX + 1,
                i <= n,
                entities@.map_values(|e: SerdeEntity| e@) == archetype_order(w, i as int).map_values(
                    |id: int| scene_entry(w, reg, id),
                ),
            decreases n - i,
        {
            let ki = world.entity_components(i as u32);
            let mut opens = true;
            let mut j: usize = 0;
            while j < i
                invariant
                    w == world@,
                    i < n,
                    n == w.entities.len(),
                    n <= u32::MAX + 1,
                    j <= i,
                    ki@ == w.entities[i as int],
                    opens == (forall|jj: int| 0 <= jj < j ==> !same_archetype(w, jj, i as int)),
                decreases i - j,
            {
                let kj = world.entity_components(j as u32);
                let same = same_kind_set(&kj, &ki);
                assert(same == same_archetype(w, j as int, i as int));
                if same {
                    opens = false;
                }
                j = j + 1;
            }
            let ghost before = entities@.map_values(|e: SerdeEntity| e@);
            if opens {
                let mut k: usize = 0;
                while k < n
                    invariant
                        w == world@,
                        reg == type_registry@,
                        i < n,
                        n == w.entities.len(),
                        n <= u32::MAX + 1,
                        k <= n,
                        ki@ == w.entities[i as int],
                        entities@.map_values(|e: SerdeEntity| e@) == before + archetype_members(
                            w,
                            i as int,
                            k as int,
                        ).map_values(|id: int| scene_entry(w, reg, id)),
                    decreases n - k,
                {
                    let kk = world.entity_components(k as u32);
                    let ghost prev = entities@;
                    let same = same_kind_set(&kk, &ki);
                    assert(same == same_archetype(w, k as int, i as int));
                    if same {
                        let values = world.entity_component_values(k as u32);
                        let components = extract_components(&values, type_registry);
                        entities.push(SerdeEntity { entity: k as u32, components });
                        proof {
                            assert(entities@.map_values(|e: SerdeEntity| e@) =~= prev.map_values(
                                |e: SerdeEntity| e@,
                            ).push(scene_entry(w, reg, k as int)));
                            assert(archetype_members(w, i as int, k + 1).map_values(
                                |id: int| scene_entry(w, reg, id),
                            ) =~= archetype_members(w, i as int, k as int).map_values(
                                |id: int| scene_entry(w, reg, id),
                            ).push(scene_entry(w, reg, k as int)));
                        }
                    }
                    k = k + 1;
                }
                proof {
                    let ms = archetype_members(w, i as int, n as int);
                    let os = archetype_order(w, i as int);
                    let f = |id: int| scene_entry(w, reg, id);
                    assert((os + ms).map_values(f) =~= os.map_values(f) + ms.map_values(f));
                }
            }
            i = i + 1;
        }
        let s = SerdeScene { entities };
        s
    }
}

/// The two fields of a saved entity.
#[derive(Clone, Copy, PartialEq, Eq, Structural, Debug)]
pub enum EntityField {
    Entity,
    Components,
}

/// The name under which a saved entity is written.
pub fn entity_struct_name() -> (name: &'static str)
    ensures
        name@ == "Entity"@,
{
    "Entity"
}

/// The name of a field of a saved entity.
pub fn entity_field_name(field: EntityField) -> (name: &'static str)
    ensures
        field == EntityField::Entity ==> name@ == "entity"@,
        field == EntityField::Components ==> name@ == "components"@,
{
    match field {
        EntityField::Entity => "entity",
        EntityField::Components => "components",
    }
}

/// Why a saved entity was refused.
#[derive(Clone, Copy, PartialEq, Eq, Structural, Debug)]
pub enum EntityFieldError {
    /// The field came twice.
    DuplicateField(EntityField),
    /// The field never came.
    MissingField(EntityField),
}

/// Collects the fields of a saved entity as they are read, one key at a time.
pub struct EntityAssembler {
    id: Option<u32>,
    components: Option<Vec<Component>>,
}

impl EntityAssembler {
    /// The id read so far.
    pub closed spec fn id(self) -> Option<u32> {
        self.id
    }

    /// The components read so far.
    pub closed spec fn components(self) -> Option<Seq<ComponentData>> {
        match self.components {
            Some(c) => Some(c@.map_values(|x: Component| x@)),
            None => None,
        }
    }

    /// Whether `field` has been read.
    pub open spec fn has(self, field: EntityField) -> bool {
        match field {
            EntityField::Entity => self.id() is Some,
            EntityField::Components => self.components() is Some,
        }
    }

    /// Nothing read yet.
    pub fn new() -> (a: Self)
        ensures
            a.id() is None,
            a.components() is None,
    {
        EntityAssembler { id: None, components: None }
    }

    /// Checks a key before its value is read: a field may come once.
    pub fn check_key(&self, field: EntityField) -> (r: Result<(), EntityFieldError>)
        ensures
            r is Ok <==> !self.has(field),
            r is Err ==> r->Err_0 == EntityFieldError::DuplicateField(field),
    {
        let seen = match field {
            EntityField::Entity => self.id.is_some(),
            EntityField::Components => self.components.is_some(),
        };
        if seen {
            Err(EntityFieldError::DuplicateField(field))
        } else {
            Ok(())
        }
    }

    /// Records the entity's id.
    pub fn set_id(&mut self, id: u32)
        ensures
            final(self).id() == Some(id),
            final(self).components() == old(self).components(),
    {
        self.id = Some(id);
    }

    /// Records the entity's components.
    pub fn set_components(&mut self, components: Vec<Component>)
        ensures
            final(self).id() == old(self).id(),
            final(self).components() == Some(components@.map_values(|c: Component| c@)),
    {
        self.components = Some(components);
    }

    /// The entity, once both fields have been read; otherwise the first missing field, the
    /// id before the components.
    pub fn finish(self) -> (r: Result<SerdeEntity, EntityFieldError>)
        ensures
            self.id() is None ==> r == Err::<SerdeEntity, EntityFieldError>(
                EntityFieldError::MissingField(EntityField::Entity),
            ),
            self.id() is Some && self.components() is None ==> r == Err::<
                SerdeEntity,
                EntityFieldError,
            >(EntityFieldError::MissingField(EntityField::Components)),
            self.id() is Some && self.components() is Some ==> r is Ok && r->Ok_0@ == (
                self.id()->0,
                self.components()->0,
            ),
    {
        let entity = match self.id {
            Some(id) => id,
            None => return Err(EntityFieldError::MissingField(EntityField::Entity)),
        };
        let components = match self.components {
            Some(c) => c,
            None => return Err(EntityFieldError::MissingField(EntityField::Components)),
        };
        Ok(SerdeEntity { entity, components })
    }
}

} // verus!
