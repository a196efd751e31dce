use ember::components::{
    all_component_kinds, component_kind_from_name, component_name, reflects_component, ComponentKind, DebugUiComponent, EditorUiState, GeometryType,
    InputComponent, PanelType, RenderableComponent, UiPanelComponent,
};
use ember::physics::PhysicsManager;

#[test]
fn defaults() {
    let d = DebugUiComponent::create();
    assert!(!d.show_profiler && !d.terrain_wireframe);
    let d2 = DebugUiComponent::default();
    assert!(!d2.show_profiler && !d2.terrain_wireframe);
    assert_eq!(GeometryType::default(), GeometryType::Box);
    assert_eq!(UiPanelComponent::default().panel_type, PanelType::right);
    assert_eq!(UiPanelComponent::left().panel_type, PanelType::left);
    assert_eq!(UiPanelComponent::top().panel_type, PanelType::top);
    assert_eq!(UiPanelComponent::bottom().panel_type, PanelType::bottom);
    assert!(InputComponent::create().key_buffer.is_empty());
    assert!(InputComponent::default().key_buffer.is_empty());
    assert!(InputComponent::default_input_vec().is_empty());
    let s = EditorUiState::default();
    assert!(s.selected_entity.is_none() && !s.new_project_window_open && !s.open_project_window_open);
    let _p = PhysicsManager::create_new();
}

#[test]
fn renderable_initialization() {
    let mut r = RenderableComponent::create();
    assert!(!r.initialized);
    r.initialize();
    assert!(r.initialized);
}

#[test]
fn component_names_and_reflection() {
    assert_eq!(component_name(ComponentKind::DebugUiComponent), "ember::core::plugins::components::debug_ui_component::DebugUiComponent");
    assert_eq!(component_name(ComponentKind::GeometryType), "ember::core::plugins::components::geometry_component::GeometryType");
    assert!(reflects_component(ComponentKind::CameraComponent));
    assert!(!reflects_component(ComponentKind::GeometryType));
    assert!(!reflects_component(ComponentKind::FileMenuSaveComponent));
}

#[test]
fn file_menu_starts_closed() {
    let m = ember::components::FileSubMenuComponent::new("/tmp/project".to_string());
    assert!(!m.new_project_window && !m.open_project_window);
    assert_eq!(m.current_nav_path, "/tmp/project");
    assert_eq!(m.text_entry, "");
}

#[test]
fn kinds_are_found_by_their_full_names() {
    assert_eq!(
        component_kind_from_name("ember::core::plugins::components::camera_component::CameraComponent"),
        Some(ComponentKind::CameraComponent)
    );
    assert_eq!(component_kind_from_name("CameraComponent"), None);
    assert_eq!(component_kind_from_name(""), None);
    let kinds = all_component_kinds();
    assert_eq!(kinds.len(), 23);
    for k in kinds {
        assert_eq!(component_kind_from_name(&component_name(k)), Some(k));
    }
}
