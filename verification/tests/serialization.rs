use ember::components::{Component, ComponentKind, DebugUiComponent, GeometryType, InputComponent};
use std::collections::VecDeque;
use ember::serialization::{
    entity_field_name, entity_struct_name, EntityAssembler, EntityField, EntityFieldError, EntityMap,
    SceneSpawnError, SerdeEntity, SerdeScene,
};
use ember::world::{ResourceKind, TypeRegistry, World};

fn world_with_arc_registry(kinds: &[ComponentKind]) -> World {
    let mut world = World::new();
    world.init_resource(ResourceKind::TypeRegistryArc);
    for k in kinds {
        world.register_component_arc(*k);
    }
    world
}

#[test]
fn writing_a_scene_attaches_components_to_new_entities() {
    let mut world = world_with_arc_registry(&[ComponentKind::CameraComponent, ComponentKind::InputComponent]);
    let scene = SerdeScene {
        entities: vec![
            SerdeEntity { entity: 10, components: vec![Component::Other(ComponentKind::CameraComponent)] },
            SerdeEntity { entity: 11, components: vec![Component::Input(InputComponent::create()), Component::Other(ComponentKind::CameraComponent)] },
            SerdeEntity { entity: 10, components: vec![Component::Input(InputComponent::create())] },
        ],
    };
    let mut map = EntityMap::default();
    assert!(scene.write_to_world(&mut world, &mut map).is_ok());
    assert_eq!(world.entity_count(), 2);
    assert_eq!(map.get(10), Some(0));
    assert_eq!(map.get(11), Some(1));
    assert_eq!(world.entity_components(0), vec![ComponentKind::CameraComponent, ComponentKind::InputComponent]);
    assert_eq!(world.entity_components(1), vec![ComponentKind::InputComponent, ComponentKind::CameraComponent]);
}

#[test]
fn writing_reuses_mapped_entities() {
    let mut world = world_with_arc_registry(&[ComponentKind::CameraComponent]);
    let e = world.spawn();
    let mut map = EntityMap::new();
    map.insert(5, e);
    let scene = SerdeScene { entities: vec![SerdeEntity { entity: 5, components: vec![Component::Other(ComponentKind::CameraComponent)] }] };
    assert!(scene.write_to_world(&mut world, &mut map).is_ok());
    assert_eq!(world.entity_count(), 1);
    assert!(world.has_component(e, ComponentKind::CameraComponent));
}

#[test]
fn unregistered_type_stops_the_write_and_keeps_earlier_work() {
    let mut world = world_with_arc_registry(&[ComponentKind::CameraComponent]);
    let scene = SerdeScene {
        entities: vec![
            SerdeEntity { entity: 1, components: vec![Component::Other(ComponentKind::CameraComponent), Component::Other(ComponentKind::TransformComponent)] },
            SerdeEntity { entity: 2, components: vec![Component::Other(ComponentKind::CameraComponent)] },
        ],
    };
    let mut map = EntityMap::new();
    match scene.write_to_world(&mut world, &mut map) {
        Err(SceneSpawnError::UnregisteredType { name }) => assert_eq!(name, "ember::core::plugins::components::transform_component::TransformComponent"),
        _ => panic!("expected an unregistered type"),
    }
    assert_eq!(world.entity_count(), 1);
    assert_eq!(world.entity_components(0), vec![ComponentKind::CameraComponent]);
    assert_eq!(map.get(2), None);
}

#[test]
fn registered_value_type_is_not_a_component() {
    let mut world = world_with_arc_registry(&[ComponentKind::GeometryType]);
    let scene = SerdeScene { entities: vec![SerdeEntity { entity: 0, components: vec![Component::Geometry(GeometryType::Box)] }] };
    let mut map = EntityMap::new();
    match scene.write_to_world(&mut world, &mut map) {
        Err(SceneSpawnError::UnregisteredComponent { name }) => assert_eq!(name, "ember::core::plugins::components::geometry_component::GeometryType"),
        _ => panic!("expected an unregistered component"),
    }
}

#[test]
fn empty_scene_writes_nothing() {
    let mut world = world_with_arc_registry(&[]);
    let mut map = EntityMap::new();
    assert!(SerdeScene::default().write_to_world(&mut world, &mut map).is_ok());
    assert_eq!(world.entity_count(), 0);
}

#[test]
fn scene_from_world_keeps_registered_components() {
    let mut world = World::new();
    let a = world.spawn();
    world.insert_component(a, Component::Other(ComponentKind::CameraComponent));
    world.insert_component(a, Component::Geometry(GeometryType::Box));
    world.insert_component(a, Component::Other(ComponentKind::TransformComponent));
    let b = world.spawn();
    world.insert_component(b, Component::Input(InputComponent::create()));
    let mut registry = TypeRegistry::new();
    registry.register(ComponentKind::CameraComponent);
    registry.register(ComponentKind::GeometryType);
    registry.register(ComponentKind::InputComponent);
    let scene = SerdeScene::from_world(&world, &registry);
    assert_eq!(scene.entities.len(), 2);
    assert_eq!(scene.entities[0].entity, 0);
    assert_eq!(scene.entities[0].components, vec![Component::Other(ComponentKind::CameraComponent)]);
    assert_eq!(scene.entities[1].entity, 1);
    assert_eq!(scene.entities[1].components, vec![Component::Input(InputComponent::create())]);
}

#[test]
fn assembler_builds_an_entity_from_both_fields() {
    let mut a = EntityAssembler::new();
    assert!(a.check_key(EntityField::Components).is_ok());
    a.set_components(vec![Component::Other(ComponentKind::CameraComponent)]);
    assert!(a.check_key(EntityField::Entity).is_ok());
    a.set_id(4);
    let e = a.finish().ok().unwrap();
    assert_eq!(e.entity, 4);
    assert_eq!(e.components, vec![Component::Other(ComponentKind::CameraComponent)]);
}

#[test]
fn assembler_refuses_duplicate_and_missing_fields() {
    let mut a = EntityAssembler::new();
    a.set_id(1);
    assert_eq!(a.check_key(EntityField::Entity), Err(EntityFieldError::DuplicateField(EntityField::Entity)));
    assert!(matches!(a.finish(), Err(EntityFieldError::MissingField(EntityField::Components))));
    let b = EntityAssembler::new();
    assert!(matches!(b.finish(), Err(EntityFieldError::MissingField(EntityField::Entity))));
    let mut c = EntityAssembler::new();
    c.set_components(vec![]);
    assert!(matches!(c.finish(), Err(EntityFieldError::MissingField(EntityField::Entity))));
}

#[test]
fn field_names() {
    assert_eq!(entity_struct_name(), "Entity");
    assert_eq!(entity_field_name(EntityField::Entity), "entity");
    assert_eq!(entity_field_name(EntityField::Components), "components");
}

#[test]
fn scene_from_world_groups_entities_by_component_set() {
    let mut world = World::new();
    let a = world.spawn();
    world.insert_component(a, Component::Other(ComponentKind::CameraComponent));
    world.insert_component(a, Component::Other(ComponentKind::TransformComponent));
    let b = world.spawn();
    world.insert_component(b, Component::Other(ComponentKind::TransformComponent));
    let c = world.spawn();
    world.insert_component(c, Component::Other(ComponentKind::TransformComponent));
    world.insert_component(c, Component::Other(ComponentKind::CameraComponent));
    let d = world.spawn();
    world.insert_component(d, Component::Other(ComponentKind::TransformComponent));
    let mut registry = TypeRegistry::new();
    registry.register(ComponentKind::CameraComponent);
    registry.register(ComponentKind::TransformComponent);
    let scene = SerdeScene::from_world(&world, &registry);
    let ids: Vec<u32> = scene.entities.iter().map(|e| e.entity).collect();
    assert_eq!(ids, vec![0, 2, 1, 3]);
    assert_eq!(
        scene.entities[1].components,
        vec![Component::Other(ComponentKind::TransformComponent), Component::Other(ComponentKind::CameraComponent)]
    );
    assert_eq!(scene.entities[2].components, vec![Component::Other(ComponentKind::TransformComponent)]);
}

#[test]
fn writing_gives_a_carried_component_the_scene_value() {
    let mut world = world_with_arc_registry(&[ComponentKind::InputComponent, ComponentKind::DebugUiComponent]);
    let e = world.spawn();
    world.insert_component(e, Component::Input(InputComponent { key_buffer: VecDeque::from(vec![5, 6]) }));
    let mut map = EntityMap::new();
    map.insert(3, e);
    let scene = SerdeScene {
        entities: vec![SerdeEntity {
            entity: 3,
            components: vec![
                Component::Input(InputComponent { key_buffer: VecDeque::from(vec![9]) }),
                Component::DebugUi(DebugUiComponent { show_profiler: true, terrain_wireframe: false }),
            ],
        }],
    };
    assert!(scene.write_to_world(&mut world, &mut map).is_ok());
    assert_eq!(world.entity_count(), 1);
    assert_eq!(
        world.entity_component_values(e),
        vec![
            Component::Input(InputComponent { key_buffer: VecDeque::from(vec![9]) }),
            Component::DebugUi(DebugUiComponent { show_profiler: true, terrain_wireframe: false }),
        ]
    );
}

#[test]
fn scene_from_world_carries_component_values() {
    let mut world = World::new();
    let e = world.spawn();
    world.insert_component(e, Component::DebugUi(DebugUiComponent { show_profiler: true, terrain_wireframe: true }));
    world.insert_component(e, Component::Input(InputComponent { key_buffer: VecDeque::from(vec![1, 2, 3]) }));
    let mut registry = TypeRegistry::new();
    registry.register(ComponentKind::DebugUiComponent);
    registry.register(ComponentKind::InputComponent);
    let scene = SerdeScene::from_world(&world, &registry);
    assert_eq!(
        scene.entities[0].components,
        vec![
            Component::DebugUi(DebugUiComponent { show_profiler: true, terrain_wireframe: true }),
            Component::Input(InputComponent { key_buffer: VecDeque::from(vec![1, 2, 3]) }),
        ]
    );
}
