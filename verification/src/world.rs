use vstd::prelude::*;

use std::collections::VecDeque;

use crate::components::{
    component_kinds, contains_kind, copy_components, copy_kinds, kinds_of, Component, ComponentData,
    ComponentKind,
};
use crate::events::SceneManagerMessage;
use crate::input::{idle_mouse_state, ModifiersState, MouseState};
use crate::message_pump::SceneManagerMessagePump;
use crate::seq_facts::lemma_push_to_set;

verus! {

/// Resources of a world whose contents the library does not read: event queues and the
/// handles of the renderer.
#[derive(Clone, Copy, PartialEq, Eq, Structural, Debug)]
pub enum OtherResource {
    SaveEvents,
    CreateProjectEvents,
    CloseProjectEvents,
    OpenProjectEvents,
    MainMenuMessages,
    FileSubMenuMessages,
    TerrainRecalculateEvents,
    TriangleSecondaryBuffers,
    LightingSecondaryBuffers,
    SaveFlag,
    EguiState,
    Device,
    Surface,
    CameraState,
    SceneState,
    Queue,
    MemoryAllocator,
    DescriptorSetAllocator,
    CommandBufferAllocator,
}

/// The kinds of resource a world can hold, at most one of each.
#[derive(Clone, Copy, PartialEq, Eq, Structural, Debug)]
pub enum ResourceKind {
    /// The scene manager's message pump.
    MessagePump,
    /// The type registry that scenes are built with.
    TypeRegistry,
    /// The shared type registry that scenes are written into worlds with.
    TypeRegistryArc,
    /// The keys pressed since the last frame.
    KeyInputQueue,
    /// The held modifier keys.
    Modifiers,
    /// The mouse buttons.
    MouseState,
    Other(OtherResource),
}

/// The set of component types that a registry knows.
pub struct TypeRegistry {
    registered: Vec<ComponentKind>,
}

impl View for TypeRegistry {
    type V = Set<ComponentKind>;

    closed spec fn view(&self) -> Set<ComponentKind> {
        self.registered@.to_set()
    }
}

impl TypeRegistry {
    /// Each known type is held once.
    #[verifier::type_invariant]
    spec fn held_once(self) -> bool {
        self.registered@.no_duplicates()
    }

    /// A registry that knows no type.
    pub fn new() -> (r: Self)
        ensures
            r@ == Set::<ComponentKind>::empty(),
    {
        let r = TypeRegistry { registered: Vec::new() };
        proof {
            assert(r.registered@.to_set() =~= Set::<ComponentKind>::empty());
        }
        r
    }

    /// Makes `kind` known; registering a known type changes nothing.
    pub fn register(&mut self, kind: ComponentKind)
        ensures
            final(self)@ == old(self)@.insert(kind),
    {
        proof {
            use_type_invariant(&*self);
        }
        if !self.contains(kind) {
            let ghost before = self.registered@;
            let mut registered = copy_kinds(&self.registered);
            registered.push(kind);
            proof {
                assert(!before.contains(kind));
                assert forall|a: int, b: int| 0 <= a < b < registered@.len() implies registered@[a] != registered@[b] by {
                    if b == before.len() {
                        assert(before.contains(registered@[a]));
                    }
                }
            }
            self.registered = registered;
            proof {
                lemma_push_to_set(old(self).registered@, kind);
            }
        } else {
            proof {
                assert(old(self).registered@.to_set().contains(kind));
                assert(self.registered@.to_set() =~= old(self).registered@.to_set().insert(kind));
            }
        }
    }

    /// Whether `kind` is known.
    pub fn contains(&self, kind: ComponentKind) -> (b: bool)
        ensures
            b == self@.contains(kind),
    {
        let b = contains_kind(&self.registered, kind);
        proof {
            if b {
                assert(self.registered@.contains(kind));
            } else if self.registered@.to_set().contains(kind) {
                assert(self.registered@.contains(kind));
            }
        }
        b
    }

    /// A registry that knows the same types.
    pub fn duplicate(&self) -> (r: Self)
        ensures
            r@ == self@,
    {
        proof {
            use_type_invariant(self);
        }
        TypeRegistry { registered: copy_kinds(&self.registered) }
    }

    /// The known types, each once.
    pub fn kinds(&self) -> (v: Vec<ComponentKind>)
        ensures
            v@.to_set() == self@,
            v@.no_duplicates(),
    {
        proof {
            use_type_invariant(self);
        }
        copy_kinds(&self.registered)
    }
}

/// A resource value, to be placed in a world.
pub enum Resource {
    MessagePump(SceneManagerMessagePump),
    TypeRegistry(TypeRegistry),
    TypeRegistryArc(TypeRegistry),
    KeyInputQueue(VecDeque<u32>),
    Modifiers(ModifiersState),
    MouseState(MouseState),
    Other(OtherResource),
}

impl Resource {
    /// The kind of the resource.
    pub open spec fn kind(self) -> ResourceKind {
        match self {
            Resource::MessagePump(_) => ResourceKind::MessagePump,
            Resource::TypeRegistry(_) => ResourceKind::TypeRegistry,
            Resource::TypeRegistryArc(_) => ResourceKind::TypeRegistryArc,
            Resource::KeyInputQueue(_) => ResourceKind::KeyInputQueue,
            Resource::Modifiers(_) => ResourceKind::Modifiers,
            Resource::MouseState(_) => ResourceKind::MouseState,
            Resource::Other(o) => ResourceKind::Other(o),
        }
    }
}

/// What a world holds: one slot per resource kind, and the entities, each with the
/// component kinds attached to it in the order in which they were attached (`entities`) and
/// the values of those components in the same order (`components`).
/// An entity's id is its position in `entities`.
pub struct WorldView {
    pub message_pump: Option<Seq<SceneManagerMessage>>,
    pub type_registry: Option<Set<ComponentKind>>,
    pub type_registry_arc: Option<Set<ComponentKind>>,
    pub key_input_queue: Option<Seq<u32>>,
    pub modifiers: Option<ModifiersState>,
    pub mouse_state: Option<MouseState>,
    pub others: Set<OtherResource>,
    pub entities: Seq<Seq<ComponentKind>>,
    pub components: Seq<Seq<ComponentData>>,
}

/// The first position of `k` in `s`.
pub open spec fn first_position(s: Seq<ComponentKind>, k: ComponentKind) -> int {
    choose|i: int| 0 <= i < s.len() && s[i] == k && forall|j: int| 0 <= j < i ==> s[j] != k
}

/// Where `s` holds `k` at `i`, some position at or before `i` holds `k` with none before it.
proof fn lemma_earliest_position(s: Seq<ComponentKind>, k: ComponentKind, i: int)
    requires
        0 <= i < s.len(),
        s[i] == k,
    ensures
        exists|m: int| 0 <= m < s.len() && s[m] == k && forall|j: int| 0 <= j < m ==> s[j] != k,
    decreases i,
{
    if exists|j: int| 0 <= j < i && s[j] == k {
        let j = choose|j: int| 0 <= j < i && s[j] == k;
        lemma_earliest_position(s, k, j);
    } else {
        assert(0 <= i < s.len() && s[i] == k && forall|j: int| 0 <= j < i ==> s[j] != k);
    }
}

/// Where `s` holds `k`, its first position holds `k` and no earlier one does.
pub proof fn lemma_first_position(s: Seq<ComponentKind>, k: ComponentKind)
    requires
        s.contains(k),
    ensures
        0 <= first_position(s, k) < s.len(),
        s[first_position(s, k)] == k,
        forall|j: int| 0 <= j < first_position(s, k) ==> s[j] != k,
{
    let i = s.index_of(k);
    lemma_earliest_position(s, k, i);
}

/// The first position of `k` in `s` is the only position that holds `k` with none before it.
proof fn lemma_first_position_unique(s: Seq<ComponentKind>, k: ComponentKind, i: int)
    requires
        0 <= i < s.len(),
        s[i] == k,
        forall|j: int| 0 <= j < i ==> s[j] != k,
    ensures
        first_position(s, k) == i,
{
    assert(s.contains(k));
    lemma_first_position(s, k);
    let f = first_position(s, k);
    if f < i {
        assert(s[f] != k);
    }
    if f > i {
        assert(s[i] != k);
    }
}

impl WorldView {
    /// A world with no resource and no entity.
    pub open spec fn empty() -> WorldView {
        WorldView {
            message_pump: None,
            type_registry: None,
            type_registry_arc: None,
            key_input_queue: None,
            modifiers: None,
            mouse_state: None,
            others: Set::empty(),
            entities: Seq::empty(),
            components: Seq::empty(),
        }
    }

    /// Whether a resource of `kind` is present.
    pub open spec fn contains(self, kind: ResourceKind) -> bool {
        match kind {
            ResourceKind::MessagePump => self.message_pump is Some,
            ResourceKind::TypeRegistry => self.type_registry is Some,
            ResourceKind::TypeRegistryArc => self.type_registry_arc is Some,
            ResourceKind::KeyInputQueue => self.key_input_queue is Some,
            ResourceKind::Modifiers => self.modifiers is Some,
            ResourceKind::MouseState => self.mouse_state is Some,
            ResourceKind::Other(o) => self.others.contains(o),
        }
    }

    /// The world with `r` in the slot of its kind, replacing what was there.
    pub open spec fn with_resource(self, r: Resource) -> WorldView {
        match r {
            Resource::MessagePump(p) => WorldView { message_pump: Some(p@), ..self },
            Resource::TypeRegistry(t) => WorldView { type_registry: Some(t@), ..self },
            Resource::TypeRegistryArc(t) => WorldView { type_registry_arc: Some(t@), ..self },
            Resource::KeyInputQueue(q) => WorldView { key_input_queue: Some(q@), ..self },
            Resource::Modifiers(m) => WorldView { modifiers: Some(m), ..self },
            Resource::MouseState(m) => WorldView { mouse_state: Some(m), ..self },
            Resource::Other(o) => WorldView { others: self.others.insert(o), ..self },
        }
    }

    /// The world with a fresh resource of `kind` in place: an empty pump, registry or key
    /// queue, no modifier held, the idle mouse, or the marker of another resource.
    pub open spec fn with_default(self, kind: ResourceKind) -> WorldView {
        match kind {
            ResourceKind::MessagePump => WorldView { message_pump: Some(Seq::empty()), ..self },
            ResourceKind::TypeRegistry => WorldView { type_registry: Some(Set::empty()), ..self },
            ResourceKind::TypeRegistryArc => WorldView {
                type_registry_arc: Some(Set::empty()),
                ..self
            },
            ResourceKind::KeyInputQueue => WorldView { key_input_queue: Some(Seq::empty()), ..self },
            ResourceKind::Modifiers => WorldView {
                modifiers: Some(ModifiersState { shift: false, ctrl: false, alt: false, logo: false }),
                ..self
            },
            ResourceKind::MouseState => WorldView { mouse_state: Some(idle_mouse_state()), ..self },
            ResourceKind::Other(o) => WorldView { others: self.others.insert(o), ..self },
        }
    }

    /// The world after `init_resource(kind)`: a present resource is kept as it is.
    pub open spec fn init(self, kind: ResourceKind) -> WorldView {
        if self.contains(kind) {
            self
        } else {
            self.with_default(kind)
        }
    }

    /// The world with `messages` waiting in its message pump.
    pub open spec fn with_pump(self, messages: Seq<SceneManagerMessage>) -> WorldView {
        WorldView { message_pump: Some(messages), ..self }
    }

    /// The world whose queue of pressed keys holds `keys`.
    pub open spec fn with_key_queue(self, keys: Seq<u32>) -> WorldView {
        WorldView { key_input_queue: Some(keys), ..self }
    }

    /// The world whose held modifiers are `m`.
    pub open spec fn with_modifiers(self, m: ModifiersState) -> WorldView {
        WorldView { modifiers: Some(m), ..self }
    }

    /// The world whose mouse state is `m`.
    pub open spec fn with_mouse(self, m: MouseState) -> WorldView {
        WorldView { mouse_state: Some(m), ..self }
    }

    /// The world whose type registry knows `kinds`.
    pub open spec fn with_type_registry(self, kinds: Set<ComponentKind>) -> WorldView {
        WorldView { type_registry: Some(kinds), ..self }
    }

    /// The world whose shared type registry knows `kinds`.
    pub open spec fn with_type_registry_arc(self, kinds: Set<ComponentKind>) -> WorldView {
        WorldView { type_registry_arc: Some(kinds), ..self }
    }

    /// Whether `entity` is one of the world's entities.
    pub open spec fn has_entity(self, entity: int) -> bool {
        0 <= entity < self.entities.len()
    }

    /// Whether each entity has one component value for each of its component kinds, in the
    /// same order.
    pub open spec fn aligned(self) -> bool {
        &&& self.components.len() == self.entities.len()
        &&& forall|i: int| 0 <= i < self.entities.len() ==> kinds_of(#[trigger] self.components[i]) == self.entities[i]
    }

    /// The value of the component of kind `kind` of `entity`.
    pub open spec fn component_of(self, entity: int, kind: ComponentKind) -> ComponentData {
        self.components[entity][first_position(self.entities[entity], kind)]
    }

    /// The world with component `c` attached to `entity`: a component of its kind that the
    /// entity carries takes its value, and otherwise it is attached after the others.
    pub open spec fn with_component(self, entity: int, c: ComponentData) -> WorldView {
        let kind = c.kind();
        if self.entities[entity].contains(kind) {
            WorldView {
                components: self.components.update(
                    entity,
                    self.components[entity].update(first_position(self.entities[entity], kind), c),
                ),
                ..self
            }
        } else {
            WorldView {
                entities: self.entities.update(entity, self.entities[entity].push(kind)),
                components: self.components.update(entity, self.components[entity].push(c)),
                ..self
            }
        }
    }

    /// The world with one more entity, which carries no component.
    pub open spec fn with_new_entity(self) -> WorldView {
        WorldView {
            entities: self.entities.push(Seq::empty()),
            components: self.components.push(Seq::empty()),
            ..self
        }
    }
}

/// Attaching a component keeps a world's components aligned with its kinds.
pub proof fn lemma_with_component_aligned(w: WorldView, e: int, c: ComponentData)
    requires
        w.aligned(),
        w.has_entity(e),
    ensures
        w.with_component(e, c).aligned(),
        w.with_component(e, c).entities.len() == w.entities.len(),
{
    let k = c.kind();
    let r = w.with_component(e, c);
    assert(kinds_of(w.components[e]) == w.entities[e]);
    if w.entities[e].contains(k) {
        lemma_first_position(w.entities[e], k);
        let p = first_position(w.entities[e], k);
        assert(kinds_of(w.components[e].update(p, c)) =~= w.entities[e]);
    } else {
        assert(kinds_of(w.components[e].push(c)) =~= w.entities[e].push(k));
    }
    assert forall|i: int| 0 <= i < r.entities.len() implies kinds_of(#[trigger] r.components[i]) == r.entities[i] by {
        if i != e {
            assert(kinds_of(w.components[i]) == w.entities[i]);
        }
    }
}

/// Attaching component `c` to entity `e` gives the entity `c` as its component of `c`'s kind
/// and keeps the value of every component of another kind.
pub proof fn lemma_with_component_values(w: WorldView, e: int, c: ComponentData, k: ComponentKind)
    requires
        w.aligned(),
        w.has_entity(e),
        k == c.kind() || w.entities[e].contains(k),
    ensures
        w.with_component(e, c).entities[e].contains(k),
        w.with_component(e, c).component_of(e, k) == if k == c.kind() {
            c
        } else {
            w.component_of(e, k)
        },
{
    let kc = c.kind();
    let r = w.with_component(e, c);
    assert(kinds_of(w.components[e]) == w.entities[e]);
    assert(w.components[e].len() == w.entities[e].len());
    if w.entities[e].contains(kc) {
        lemma_first_position(w.entities[e], kc);
        let p = first_position(w.entities[e], kc);
        if k == kc {
            assert(r.entities[e] == w.entities[e]);
        } else {
            lemma_first_position(w.entities[e], k);
            assert(r.entities[e] == w.entities[e]);
            assert(first_position(w.entities[e], k) != p);
        }
    } else {
        let s = w.entities[e];
        let n = s.len() as int;
        if k == kc {
            assert(r.entities[e] == s.push(kc));
            assert forall|j: int| 0 <= j < n implies s.push(kc)[j] != kc by {
                assert(s.push(kc)[j] == s[j]);
                if s[j] == kc {
                    assert(s.contains(kc));
                }
            }
            lemma_first_position_unique(s.push(kc), kc, n);
            assert(r.entities[e].contains(k)) by {
                assert(r.entities[e][n] == k);
            }
        } else {
            lemma_first_position(s, k);
            let f = first_position(s, k);
            assert forall|j: int| 0 <= j < f implies s.push(kc)[j] != k by {
                assert(s.push(kc)[j] == s[j]);
            }
            lemma_first_position_unique(s.push(kc), k, f);
            assert(r.entities[e][f] == k);
        }
    }
}

/// The resources and entities of a scene.
pub struct World {
    message_pump: Option<SceneManagerMessagePump>,
    type_registry: Option<TypeRegistry>,
    type_registry_arc: Option<TypeRegistry>,
    key_input_queue: Option<VecDeque<u32>>,
    modifiers: Option<ModifiersState>,
    mouse_state: Option<MouseState>,
    others: Vec<OtherResource>,
    entities: Vec<Vec<Component>>,
}

impl View for World {
    type V = WorldView;

    closed spec fn view(&self) -> WorldView {
        WorldView {
            message_pump: match self.message_pump {
                Some(p) => Some(p@),
                None => None,
            },
            type_registry: match self.type_registry {
                Some(t) => Some(t@),
                None => None,
            },
            type_registry_arc: match self.type_registry_arc {
                Some(t) => Some(t@),
                None => None,
            },
            key_input_queue: match self.key_input_queue {
                Some(q) => Some(q@),
                None => None,
            },
            modifiers: self.modifiers,
            mouse_state: self.mouse_state,
            others: self.others@.to_set(),
            entities: Seq::new(
                self.entities@.len(),
                |i: int| kinds_of(self.entities@[i]@.map_values(|c: Component| c@)),
            ),
            components: Seq::new(
                self.entities@.len(),
                |i: int| self.entities@[i]@.map_values(|c: Component| c@),
            ),
        }
    }
}


/// Whether `o` occurs in `others`.
fn contains_other(others: &Vec<OtherResource>, o: OtherResource) -> (b: bool)
    ensures
        b == others@.contains(o),
{
    let mut i: usize = 0;
    while i < others.len()
        invariant
            i <= others@.len(),
            forall|j: int| 0 <= j < i ==> others@[j] != o,
        decreases others@.len() - i,
    {
        if others[i] == o {
            return true;
        }
        i = i + 1;
    }
    false
}

impl World {
    /// The entities of a world have one component value for each component kind.
    pub proof fn lemma_view_aligned(&self)
        ensures
            self@.aligned(),
    {
    }

    /// A world with no resource and no entity.
    pub fn new() -> (w: Self)
        ensures
            w@ == WorldView::empty(),
    {
        let w = World {
            message_pump: None,
            type_registry: None,
            type_registry_arc: None,
            key_input_queue: None,
            modifiers: None,
            mouse_state: None,
            others: Vec::new(),
            entities: Vec::new(),
        };
        proof {
            assert(w@.others =~= Set::<OtherResource>::empty());
            assert(w@.entities =~= Seq::<Seq<ComponentKind>>::empty());
            assert(w@.components =~= Seq::<Seq<ComponentData>>::empty());
        }
        w
    }

    /// Whether a resource of `kind` is present.
    pub fn contains_resource(&self, kind: ResourceKind) -> (b: bool)
        ensures
            b == self@.contains(kind),
    {
        match kind {
            ResourceKind::MessagePump => self.message_pump.is_some(),
            ResourceKind::TypeRegistry => self.type_registry.is_some(),
            ResourceKind::TypeRegistryArc => self.type_registry_arc.is_some(),
            ResourceKind::KeyInputQueue => self.key_input_queue.is_some(),
            ResourceKind::Modifiers => self.modifiers.is_some(),
            ResourceKind::MouseState => self.mouse_state.is_some(),
            ResourceKind::Other(o) => {
                let b = contains_other(&self.others, o);
                proof {
                    if self.others@.to_set().contains(o) {
                        assert(self.others@.contains(o));
                    }
                }
                b
            },
        }
    }

    /// Puts `r` in the slot of its kind, replacing what was there.
    pub fn insert_resource(&mut self, r: Resource)
        ensures
            final(self)@ == old(self)@.with_resource(r),
    {
        match r {
            Resource::MessagePump(p) => {
                self.message_pump = Some(p);
            },
            Resource::TypeRegistry(t) => {
                self.type_registry = Some(t);
            },
            Resource::TypeRegistryArc(t) => {
                self.type_registry_arc = Some(t);
            },
            Resource::KeyInputQueue(q) => {
                self.key_input_queue = Some(q);
            },
            Resource::Modifiers(m) => {
                self.modifiers = Some(m);
            },
            Resource::MouseState(m) => {
                self.mouse_state = Some(m);
            },
            Resource::Other(o) => {
                if !contains_other(&self.others, o) {
                    self.others.push(o);
                    proof {
                        lemma_push_to_set(old(self).others@, o);
                    }
                } else {
                    proof {
                        assert(old(self).others@.to_set().contains(o));
                        assert(self.others@.to_set() =~= old(self).others@.to_set().insert(o));
                    }
                }
            },
        }
    }

    /// Puts a fresh resource of `kind` in place unless one is present.
    pub fn init_resource(&mut self, kind: ResourceKind)
        ensures
            final(self)@ == old(self)@.init(kind),
    {
        if !self.contains_resource(kind) {
            let r = match kind {
                ResourceKind::MessagePump => Resource::MessagePump(SceneManagerMessagePump::new()),
                ResourceKind::TypeRegistry => Resource::TypeRegistry(TypeRegistry::new()),
                ResourceKind::TypeRegistryArc => Resource::TypeRegistryArc(TypeRegistry::new()),
                ResourceKind::KeyInputQueue => Resource::KeyInputQueue(VecDeque::new()),
                ResourceKind::Modifiers => Resource::Modifiers(ModifiersState::empty()),
                ResourceKind::MouseState => Resource::MouseState(MouseState::default()),
                ResourceKind::Other(o) => Resource::Other(o),
            };
            self.insert_resource(r);
            proof {
                assert(self@ =~= old(self)@.with_default(kind));
            }
        }
    }

    /// Hands out the messages waiting in the message pump, oldest first, and empties it;
    /// `None` where the world has no pump.
    pub fn take_messages(&mut self) -> (messages: Option<Vec<SceneManagerMessage>>)
        ensures
            match old(self)@.message_pump {
                Some(waiting) => {
                    &&& messages is Some
                    &&& messages->0@ == waiting
                    &&& final(self)@ == old(self)@.with_pump(Seq::<SceneManagerMessage>::empty())
                },
                None => messages is None && final(self)@ == old(self)@,
            },
    {
        match self.message_pump.take() {
            Some(mut pump) => {
                let messages = pump.take_messages();
                self.message_pump = Some(pump);
                Some(messages)
            },
            None => None,
        }
    }

    /// Queues `message` in the message pump; `false`, and nothing changed, where the world
    /// has no pump.
    pub fn send_message(&mut self, message: SceneManagerMessage) -> (sent: bool)
        ensures
            sent == old(self)@.message_pump is Some,
            sent ==> final(self)@ == old(self)@.with_pump(old(self)@.message_pump->0.push(message)),
            !sent ==> final(self)@ == old(self)@,
    {
        match self.message_pump.take() {
            Some(mut pump) => {
                pump.send(message);
                self.message_pump = Some(pump);
                true
            },
            None => false,
        }
    }

    /// Registers `kind` in the type registry.
    pub fn register_component(&mut self, kind: ComponentKind)
        requires
            old(self)@.type_registry is Some,
        ensures
            final(self)@ == old(self)@.with_type_registry(old(self)@.type_registry->0.insert(kind)),
    {
        let mut registry = self.type_registry.take().unwrap();
        registry.register(kind);
        self.type_registry = Some(registry);
    }

    /// Registers `kind` in the shared type registry.
    pub fn register_component_arc(&mut self, kind: ComponentKind)
        requires
            old(self)@.type_registry_arc is Some,
        ensures
            final(self)@ == old(self)@.with_type_registry_arc(
                old(self)@.type_registry_arc->0.insert(kind),
            ),
    {
        let mut registry = self.type_registry_arc.take().unwrap();
        registry.register(kind);
        self.type_registry_arc = Some(registry);
    }

    /// A copy of the type registry, if the world has one.
    pub fn type_registry(&self) -> (r: Option<TypeRegistry>)
        ensures
            match self@.type_registry {
                Some(t) => r is Some && r->0@ == t,
                None => r is None,
            },
    {
        match &self.type_registry {
            Some(t) => Some(t.duplicate()),
            None => None,
        }
    }

    /// A copy of the shared type registry, if the world has one.
    pub fn type_registry_arc(&self) -> (r: Option<TypeRegistry>)
        ensures
            match self@.type_registry_arc {
                Some(t) => r is Some && r->0@ == t,
                None => r is None,
            },
    {
        match &self.type_registry_arc {
            Some(t) => Some(t.duplicate()),
            None => None,
        }
    }

    /// The keys in the world's queue of pressed keys, oldest first, if it has one.
    pub fn key_input_queue(&self) -> (keys: Option<Vec<u32>>)
        ensures
            match self@.key_input_queue {
                Some(q) => keys is Some && keys->0@ == q,
                None => keys is None,
            },
    {
        match &self.key_input_queue {
            Some(q) => {
                let mut v: Vec<u32> = Vec::new();
                let mut i: usize = 0;
                while i < q.len()
                    invariant
                        i <= q@.len(),
                        v@ == q@.subrange(0, i as int),
                    decreases q@.len() - i,
                {
                    v.push(q[i]);
                    i = i + 1;
                    proof {
                        assert(v@ =~= q@.subrange(0, i as int));
                    }
                }
                proof {
                    assert(v@ =~= q@);
                }
                Some(v)
            },
            None => None,
        }
    }

    /// The world's held modifiers, if it records them.
    pub fn modifiers(&self) -> (m: Option<ModifiersState>)
        ensures
            m == self@.modifiers,
    {
        self.modifiers
    }

    /// The world's mouse state, if it records one.
    pub fn mouse_state(&self) -> (m: Option<MouseState>)
        ensures
            m == self@.mouse_state,
    {
        self.mouse_state
    }

    /// The number of entities.
    pub fn entity_count(&self) -> (n: usize)
        ensures
            n == self@.entities.len(),
    {
        self.entities.len()
    }

    /// Adds an entity without components and returns its id.
    pub fn spawn(&mut self) -> (entity: u32)
        requires
            old(self)@.entities.len() < u32::MAX,
        ensures
            entity == old(self)@.entities.len(),
            final(self)@ == old(self)@.with_new_entity(),
    {
        let entity = self.entities.len() as u32;
        self.entities.push(Vec::new());
        proof {
            assert(self.entities@[entity as int]@.map_values(|c: Component| c@) =~= Seq::<ComponentData>::empty());
            assert(kinds_of(Seq::<ComponentData>::empty()) =~= Seq::<ComponentKind>::empty());
            assert(self@.entities =~= old(self)@.entities.push(Seq::empty()));
            assert(self@.components =~= old(self)@.components.push(Seq::empty()));
        }
        entity
    }

    /// Whether `entity` carries a component of kind `kind`.
    pub fn has_component(&self, entity: u32, kind: ComponentKind) -> (b: bool)
        requires
            self@.has_entity(entity as int),
        ensures
            b == self@.entities[entity as int].contains(kind),
    {
        let kinds = component_kinds(&self.entities[entity as usize]);
        contains_kind(&kinds, kind)
    }

    /// The component kinds of `entity`, in the order in which they were attached.
    pub fn entity_components(&self, entity: u32) -> (kinds: Vec<ComponentKind>)
        requires
            self@.has_entity(entity as int),
        ensures
            kinds@ == self@.entities[entity as int],
    {
        component_kinds(&self.entities[entity as usize])
    }

    /// The components of `entity` with their values, in the order in which they were attached.
    pub fn entity_component_values(&self, entity: u32) -> (cs: Vec<Component>)
        requires
            self@.has_entity(entity as int),
        ensures
            cs@.map_values(|c: Component| c@) == self@.components[entity as int],
    {
        copy_components(&self.entities[entity as usize])
    }

    /// Attaches `c` to `entity`: a component of its kind that the entity carries takes its
    /// value; otherwise it is attached after the others.
    pub fn insert_component(&mut self, entity: u32, c: Component)
        requires
            old(self)@.has_entity(entity as int),
        ensures
            final(self)@ == old(self)@.with_component(entity as int, c@),
    {
        let e = entity as usize;
        let kind = c.kind();
        let mut cs = copy_components(&self.entities[e]);
        let ghost datas = cs@.map_values(|x: Component| x@);
        let ghost ks = kinds_of(datas);
        assert(datas == old(self)@.components[e as int]);
        assert(ks == old(self)@.entities[e as int]);
        let mut j: usize = 0;
        while j < cs.len() && cs[j].kind() != kind
            invariant
                j <= cs@.len(),
                datas == cs@.map_values(|x: Component| x@),
                ks == kinds_of(datas),
                forall|i: int| 0 <= i < j ==> ks[i] != kind,
            decreases cs@.len() - j,
        {
            j = j + 1;
        }
        let ghost cv = c@;
        if j < cs.len() {
            proof {
                assert(ks[j as int] == kind);
                assert(ks.contains(kind));
                assert(first_position(ks, kind) == j as int) by {
                    assert(0 <= j < ks.len() && ks[j as int] == kind && forall|i: int| 0 <= i < j ==> ks[i] != kind);
                    let k0 = first_position(ks, kind);
                    if k0 < j as int {
                        assert(ks[k0] != kind);
                    }
                    if k0 > j as int {
                        assert(ks[j as int] != kind);
                    }
                }
            }
            cs.set(j, c);
            proof {
                assert(cs@.map_values(|x: Component| x@) =~= datas.update(j as int, cv));
                assert(kinds_of(datas.update(j as int, cv)) =~= ks);
            }
        } else {
            proof {
                assert(!ks.contains(kind));
            }
            cs.push(c);
            proof {
                assert(cs@.map_values(|x: Component| x@) =~= datas.push(cv));
                assert(kinds_of(datas.push(cv)) =~= ks.push(kind));
            }
        }
        self.entities.set(e, cs);
        proof {
            assert(self@.components =~= old(self)@.with_component(e as int, cv).components);
            assert(self@.entities =~= old(self)@.with_component(e as int, cv).entities);
        }
    }
}

} // verus!
