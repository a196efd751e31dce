use ember::components::{Component, ComponentKind, GeometryType, InputComponent};
use ember::scene_builder::DynamicSceneBuilder;
use ember::world::{ResourceKind, TypeRegistry, World};

fn sample_world() -> World {
    let mut world = World::new();
    world.init_resource(ResourceKind::TypeRegistry);
    world.register_component(ComponentKind::CameraComponent);
    world.register_component(ComponentKind::GeometryType);
    for _ in 0..3 {
        let e = world.spawn();
        world.insert_component(e, Component::Other(ComponentKind::CameraComponent));
        world.insert_component(e, Component::Geometry(GeometryType::Box));
        world.insert_component(e, Component::Input(InputComponent::create()));
    }
    world
}

#[test]
fn extracted_entities_come_out_in_ascending_order() {
    let world = sample_world();
    let mut builder = DynamicSceneBuilder::from_world(&world);
    builder.extract_entity(1);
    builder.extract_entity(0);
    let scene = builder.build();
    let ids: Vec<u32> = scene.entities.iter().map(|e| e.entity).collect();
    assert_eq!(ids, vec![0, 1]);
    assert_eq!(scene.entities[0].components, vec![Component::Other(ComponentKind::CameraComponent)]);
}

#[test]
fn re_extracting_changes_nothing() {
    let world = sample_world();
    let mut builder = DynamicSceneBuilder::from_world(&world);
    builder.extract_entities(&vec![2, 0, 2, 0]);
    builder.extract_entity(2);
    let scene = builder.build();
    let ids: Vec<u32> = scene.entities.iter().map(|e| e.entity).collect();
    assert_eq!(ids, vec![0, 2]);
}

#[test]
fn builder_with_own_registry_extracts_its_types() {
    let world = sample_world();
    let mut registry = TypeRegistry::new();
    registry.register(ComponentKind::InputComponent);
    let mut builder = DynamicSceneBuilder::from_world_with_type_registry(&world, registry);
    builder.extract_entities(&vec![1]);
    let scene = builder.build();
    assert_eq!(scene.entities.len(), 1);
    assert_eq!(scene.entities[0].components, vec![Component::Input(InputComponent::create())]);
}
