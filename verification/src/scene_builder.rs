use vstd::prelude::*;

use crate::components::ComponentKind;
use crate::serialization::{extract_components, extractable, DynamicEntity, DynamicScene};
use crate::seq_facts::lemma_push_contains;
use crate::world::{TypeRegistry, World, WorldView};
use crate::components::{copy_components, Component, ComponentData};
use std::collections::BTreeMap;
use vstd::std_specs::btree::{increasing_seq, spec_btree_map_iter};
use vstd::std_specs::iter::IteratorSpec;
use vstd::std_specs::cmp::OrdSpec;

verus! {

broadcast use vstd::std_specs::btree::group_btree_axioms, vstd::laws_cmp::group_laws_cmp;

/// Whether the entries' ids strictly ascend.
pub open spec fn ids_ascending(s: Seq<(u32, Seq<ComponentData>)>) -> bool {
    forall|i: int, j: int| 0 <= i < j < s.len() ==> s[i].0 < s[j].0
}

/// Whether an entry has id `id`.
pub open spec fn has_id(s: Seq<(u32, Seq<ComponentData>)>, id: u32) -> bool {
    exists|i: int| 0 <= i < s.len() && s[i].0 == id
}

/// Entries in ascending order of their ids are fixed by the entries they hold: however
/// entities were extracted, the same entries come out in the same order.
pub proof fn lemma_ascending_entries_determined(
    s1: Seq<(u32, Seq<ComponentData>)>,
    s2: Seq<(u32, Seq<ComponentData>)>,
)
    requires
        ids_ascending(s1),
        ids_ascending(s2),
        forall|x: (u32, Seq<ComponentData>)| #[trigger] s1.contains(x) <==> s2.contains(x),
    ensures
        s1 == s2,
    decreases s1.len(),
{
    if s1.len() == 0 {
        if s2.len() > 0 {
            assert(s2.contains(s2[0]));
            assert(s1.contains(s2[0]));
        }
        assert(s1 =~= s2);
    } else {
        assert(s1.contains(s1.last()));
        assert(s2.len() > 0);
        assert(s2.contains(s1.last()));
        assert(s2.contains(s2.last()));
        assert(s1.contains(s2.last()));
        let i1 = s2.index_of(s1.last());
        let i2 = s1.index_of(s2.last());
        assert(s2[i1] == s1.last());
        assert(s1[i2] == s2.last());
        assert(s1.last().0 <= s2.last().0) by {
            if i1 < s2.len() - 1 {
                assert(s2[i1].0 < s2[s2.len() - 1].0);
            }
        }
        assert(s2.last().0 <= s1.last().0) by {
            if i2 < s1.len() - 1 {
                assert(s1[i2].0 < s1[s1.len() - 1].0);
            }
        }
        assert(i2 == s1.len() - 1) by {
            if i2 < s1.len() - 1 {
                assert(s1[i2].0 < s1[s1.len() - 1].0);
            }
        }
        assert(s1.last() == s2.last());
        let r1 = s1.drop_last();
        let r2 = s2.drop_last();
        assert forall|x: (u32, Seq<ComponentData>)| #[trigger] r1.contains(x) <==> r2.contains(x) by {
            if r1.contains(x) {
                let j = r1.index_of(x);
                assert(s1[j] == x);
                assert(s1.contains(x));
                let k = s2.index_of(x);
                assert(s2[k] == x);
                assert(x.0 < s1.last().0);
                assert(k != s2.len() - 1);
                assert(r2[k] == x);
            }
            if r2.contains(x) {
                let j = r2.index_of(x);
                assert(s2[j] == x);
                assert(s2.contains(x));
                assert(s1.contains(x));
                let k = s1.index_of(x);
                assert(s1[k] == x);
                assert(x.0 < s2.last().0);
                assert(k != s1.len() - 1);
                assert(r1[k] == x);
            }
        }
        lemma_ascending_entries_determined(r1, r2);
        assert(s1 =~= r1.push(s1.last()));
        assert(s2 =~= r2.push(s2.last()));
    }
}

/// Keys that a map hands out in increasing order ascend.
proof fn lemma_increasing_keys(keys: Seq<u32>, i: int, j: int)
    requires
        increasing_seq(keys),
        0 <= i < j < keys.len(),
    ensures
        keys[i] < keys[j],
{
    assert(keys[i].cmp_spec(&keys[j]) is Less);
}

/// Builds a scene from some of a world's entities, kept by their ids.
pub struct DynamicSceneBuilder<'w> {
    entities: BTreeMap<u32, DynamicEntity>,
    type_registry: TypeRegistry,
    world: &'w World,
}

impl<'w> DynamicSceneBuilder<'w> {
    /// The entries extracted so far: for each extracted id, the components recorded for it.
    pub closed spec fn entries(self) -> Map<u32, Seq<ComponentData>> {
        Map::new(
            |id: u32| self.entities@.contains_key(id),
            |id: u32| self.entities@[id].components@.map_values(|c: Component| c@),
        )
    }

    /// The types whose components are extracted.
    pub closed spec fn registry(self) -> Set<ComponentKind> {
        self.type_registry@
    }

    /// The world that entities are extracted from.
    pub closed spec fn world(self) -> WorldView {
        self.world@
    }

    /// Each entry is kept under its own id.
    pub closed spec fn wf(self) -> bool {
        forall|id: u32| #[trigger] self.entities@.contains_key(id) ==> self.entities@[id].entity == id
    }

    /// What extracting entity `id` records: its components that the registry knows and that
    /// reflect as components.
    pub open spec fn extracted(self, id: u32) -> Seq<ComponentData> {
        extractable(self.world().components[id as int], self.registry())
    }

    /// A builder over `world` that extracts the components of the types that the world's type
    /// registry knows.
    pub fn from_world(world: &'w World) -> (b: Self)
        requires
            world@.type_registry is Some,
        ensures
            b.wf(),
            b.entries() == Map::<u32, Seq<ComponentData>>::empty(),
            b.registry() == world@.type_registry->0,
            b.world() == world@,
    {
        let b = DynamicSceneBuilder {
            entities: BTreeMap::new(),
            type_registry: world.type_registry().unwrap(),
            world,
        };
        proof {
            assert(b.entries() =~= Map::<u32, Seq<ComponentData>>::empty());
        }
        b
    }

    /// A builder over `world` that extracts the components of the types that `type_registry`
    /// knows.
    pub fn from_world_with_type_registry(world: &'w World, type_registry: TypeRegistry) -> (b: Self)
        ensures
            b.wf(),
            b.entries() == Map::<u32, Seq<ComponentData>>::empty(),
            b.registry() == type_registry@,
            b.world() == world@,
    {
        let b = DynamicSceneBuilder { entities: BTreeMap::new(), type_registry, world };
        proof {
            assert(b.entries() =~= Map::<u32, Seq<ComponentData>>::empty());
        }
        b
    }

    /// The scene of the extracted entities, in ascending order of their ids: exactly one
    /// entity for each extracted id, with the components recorded for it.
    pub fn build(self) -> (scene: DynamicScene)
        requires
            self.wf(),
        ensures
            ids_ascending(scene@),
            forall|i: int|
                0 <= i < scene@.len() ==> #[trigger] self.entries().contains_key(scene@[i].0)
                    && self.entries()[scene@[i].0] == scene@[i].1,
            forall|id: u32| #[trigger] self.entries().contains_key(id) ==> has_id(scene@, id),
    {
        let ghost m = self.entities@;
        let ghost items = spec_btree_map_iter(&self.entities).remaining();
        let mut out: Vec<DynamicEntity> = Vec::new();
        for pair in it: self.entities.iter()
            invariant
                m == self.entities@,
                items == it.seq(),
                self.wf(),
                it.seq().len() == m.dom().len(),
                increasing_seq(it.seq().map_values(|kv: (&u32, &DynamicEntity)| *kv.0)),
                forall|i: int|
                    0 <= i < it.seq().len() ==> m.contains_key(*(#[trigger] it.seq()[i]).0)
                        && m[*it.seq()[i].0] == *it.seq()[i].1,
                forall|k: u32| #[trigger] m.contains_key(k) ==> it.seq().contains((&k, &m[k])),
                out@.len() == it.index(),
                forall|i: int|
                    0 <= i < it.index() ==> (#[trigger] out@[i])@ == (
                        *it.seq()[i].0,
                        (*it.seq()[i].1).components@.map_values(|c: Component| c@),
                    ),
        {
            let (id, entity) = pair;
            out.push(DynamicEntity { entity: *id, components: copy_components(&entity.components) });
        }
        let scene = DynamicScene { entities: out };
        proof {
            let keys = items.map_values(|kv: (&u32, &DynamicEntity)| *kv.0);
            assert(scene@.len() == items.len());
            assert forall|i: int, j: int| 0 <= i < j < scene@.len() implies scene@[i].0 < scene@[j].0 by {
                lemma_increasing_keys(keys, i, j);
                assert(scene@[i].0 == keys[i]);
                assert(scene@[j].0 == keys[j]);
            }
            assert forall|i: int| 0 <= i < scene@.len() implies #[trigger] self.entries().contains_key(
                scene@[i].0,
            ) && self.entries()[scene@[i].0] == scene@[i].1 by {
                assert(scene@[i] == out@[i]@);
            }
            assert forall|id: u32| #[trigger] self.entries().contains_key(id) implies has_id(scene@, id) by {
                assert(m.contains_key(id));
                let i = items.index_of((&id, &m[id]));
                assert(scene@[i] == out@[i]@);
                assert(scene@[i].0 == id);
            }
        }
        scene
    }

    /// Extracts entity `entity`: unless it was extracted before, its entry records its
    /// components that the registry knows and that reflect as components. Extracting an
    /// entity a second time changes nothing.
    pub fn extract_entity(&mut self, entity: u32)
        requires
            old(self).wf(),
            old(self).world().has_entity(entity as int),
        ensures
            final(self).wf(),
            final(self).registry() == old(self).registry(),
            final(self).world() == old(self).world(),
            final(self).entries() == if old(self).entries().contains_key(entity) {
                old(self).entries()
            } else {
                old(self).entries().insert(entity, old(self).extracted(entity))
            },
    {
        if self.entities.contains_key(&entity) {
            return;
        }
        let values = self.world.entity_component_values(entity);
        let components = extract_components(&values, &self.type_registry);
        self.entities.insert(entity, DynamicEntity { entity, components });
        proof {
            assert(self.entries() =~= old(self).entries().insert(entity, old(self).extracted(entity)));
        }
    }

    /// Extracts the entities in `entities` one after the other, as `extract_entity` does.
    /// Afterwards the entries are those extracted before, as they were, and one for each id
    /// of `entities` not extracted before, recording its components that the registry knows
    /// and that reflect as components.
    pub fn extract_entities(&mut self, entities: &Vec<u32>)
        requires
            old(self).wf(),
            forall|i: int| 0 <= i < entities@.len() ==> old(self).world().has_entity(#[trigger] entities@[i] as int),
        ensures
            final(self).wf(),
            final(self).registry() == old(self).registry(),
            final(self).world() == old(self).world(),
            forall|id: u32| #[trigger] final(self).entries().contains_key(id) <==> (
                old(self).entries().contains_key(id) || entities@.contains(id)),
            forall|id: u32| #[trigger] final(self).entries().contains_key(id) ==> final(self).entries()[id]
                == if old(self).entries().contains_key(id) {
                    old(self).entries()[id]
                } else {
                    old(self).extracted(id)
                },
    {
        let mut k: usize = 0;
        while k < entities.len()
            invariant
                k <= entities@.len(),
                self.wf(),
                self.registry() == old(self).registry(),
                self.world() == old(self).world(),
                forall|i: int| 0 <= i < entities@.len() ==> old(self).world().has_entity(#[trigger] entities@[i] as int),
                forall|id: u32| #[trigger] self.entries().contains_key(id) <==> (
                    old(self).entries().contains_key(id) || entities@.take(k as int).contains(id)),
                forall|id: u32| #[trigger] self.entries().contains_key(id) ==> self.entries()[id]
                    == if old(self).entries().contains_key(id) {
                        old(self).entries()[id]
                    } else {
                        old(self).extracted(id)
                    },
            decreases entities@.len() - k,
        {
            let e = entities[k];
            self.extract_entity(e);
            proof {
                assert(entities@.take(k as int + 1) =~= entities@.take(k as int).push(e));
                lemma_push_contains(entities@.take(k as int), e);
            }
            k = k + 1;
        }
        proof {
            assert(entities@.take(k as int) =~= entities@);
        }
    }
}

} // verus!
