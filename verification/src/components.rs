use vstd::prelude::*;

use std::collections::VecDeque;

verus! {

/// Marks the entity that carries the application's own interface.
pub struct AppInterfaceFlag;

/// Marks an entity that is written out when the scene is saved.
pub struct SerializerFlag;

/// Marks an entity whose terrain settings are shown in the interface.
pub struct TerrainUiComponent;

/// Marks an entity whose transform is shown in the interface.
pub struct TransformUiComponent;

/// The scene graph panel.
pub struct SceneGraphComponent {}

/// The file menu: whether its project windows are open, the folder being browsed, and the
/// text typed in.
#[derive(PartialEq, Eq, Debug)]
pub struct FileSubMenuComponent {
    pub new_project_window: bool,
    pub open_project_window: bool,
    pub current_nav_path: String,
    pub text_entry: String,
}

impl FileSubMenuComponent {
    /// A file menu with its windows closed, browsing `current_nav_path`, with no text typed.
    pub fn new(current_nav_path: String) -> (c: Self)
        ensures
            !c.new_project_window,
            !c.open_project_window,
            c.current_nav_path@ == current_nav_path@,
            c.text_entry@ == Seq::<char>::empty(),
    {
        FileSubMenuComponent {
            new_project_window: false,
            open_project_window: false,
            current_nav_path,
            text_entry: String::new(),
        }
    }
}

/// The component library panel.
pub struct ComponentLibraryComponent {}

/// The entity inspector panel.
pub struct EntityInspectorComponent {}

/// The "save" entry of the file menu.
pub struct FileMenuSaveComponent;

/// Switches of the debug interface.
#[derive(PartialEq, Eq, Debug)]
pub struct DebugUiComponent {
    pub show_profiler: bool,
    pub terrain_wireframe: bool,
}

impl DebugUiComponent {
    /// Both switches off.
    pub fn create() -> (c: Self)
        ensures
            !c.show_profiler,
            !c.terrain_wireframe,
    {
        DebugUiComponent { show_profiler: false, terrain_wireframe: false }
    }
}

impl Default for DebugUiComponent {
    fn default() -> (c: Self)
        ensures
            !c.show_profiler,
            !c.terrain_wireframe,
    {
        DebugUiComponent::create()
    }
}

/// Whether an entity's render resources have been set up.
#[derive(PartialEq, Eq, Debug)]
pub struct RenderableComponent {
    pub initialized: bool,
}

impl RenderableComponent {
    /// A renderable that is not set up yet.
    pub fn create() -> (c: Self)
        ensures
            !c.initialized,
    {
        RenderableComponent { initialized: false }
    }

    /// Records that the renderable's resources are set up.
    pub fn initialize(&mut self)
        ensures
            final(self).initialized,
    {
        self.initialized = true;
    }
}

/// The shape a geometry component draws.
#[derive(Clone, Copy, PartialEq, Eq, Structural, Debug)]
pub enum GeometryType {
    Triangle,
    Box,
    Plane,
}

impl Default for GeometryType {
    fn default() -> (t: Self)
        ensures
            t == GeometryType::Box,
    {
        GeometryType::Box
    }
}

/// The side of the window an interface panel is docked to.
#[derive(Clone, Copy, PartialEq, Eq, Structural, Debug)]
#[allow(non_camel_case_types)]
pub enum PanelType {
    left,
    right,
    top,
    bottom,
}

/// The keys an entity has been sent, oldest first.
#[derive(PartialEq, Eq, Debug)]
pub struct InputComponent {
    pub key_buffer: VecDeque<u32>,
}

impl InputComponent {
    /// An input component without keys.
    pub fn create() -> (c: Self)
        ensures
            c.key_buffer@ == Seq::<u32>::empty(),
    {
        InputComponent { key_buffer: VecDeque::new() }
    }

    /// The key buffer of a component read back from a saved scene: empty.
    pub fn default_input_vec() -> (v: VecDeque<u32>)
        ensures
            v@ == Seq::<u32>::empty(),
    {
        VecDeque::new()
    }
}

impl Default for InputComponent {
    fn default() -> (c: Self)
        ensures
            c.key_buffer@ == Seq::<u32>::empty(),
    {
        InputComponent::create()
    }
}

/// An interface panel and the side it is docked to.
#[derive(PartialEq, Eq, Debug)]
pub struct UiPanelComponent {
    pub panel_type: PanelType,
}

impl UiPanelComponent {
    /// A panel docked left.
    pub fn left() -> (p: Self)
        ensures
            p.panel_type == PanelType::left,
    {
        UiPanelComponent { panel_type: PanelType::left }
    }

    /// A panel docked right.
    pub fn right() -> (p: Self)
        ensures
            p.panel_type == PanelType::right,
    {
        UiPanelComponent { panel_type: PanelType::right }
    }

    /// A panel docked at the top.
    pub fn top() -> (p: Self)
        ensures
            p.panel_type == PanelType::top,
    {
        UiPanelComponent { panel_type: PanelType::top }
    }

    /// A panel docked at the bottom.
    pub fn bottom() -> (p: Self)
        ensures
            p.panel_type == PanelType::bottom,
    {
        UiPanelComponent { panel_type: PanelType::bottom }
    }
}

impl Default for UiPanelComponent {
    fn default() -> (p: Self)
        ensures
            p.panel_type == PanelType::right,
    {
        UiPanelComponent::right()
    }
}

/// The state of the editor's interface: the entity selected for inspection, if any, and
/// which project windows are open.
pub struct EditorUiState {
    pub selected_entity: Option<u32>,
    pub new_project_window_open: bool,
    pub open_project_window_open: bool,
}

impl Default for EditorUiState {
    fn default() -> (s: Self)
        ensures
            s.selected_entity is None,
            !s.new_project_window_open,
            !s.open_project_window_open,
    {
        EditorUiState {
            selected_entity: None,
            new_project_window_open: false,
            open_project_window_open: false,
        }
    }
}

/// The component types that entities of a world can carry.
#[derive(Clone, Copy, PartialEq, Eq, Structural, Debug)]
pub enum ComponentKind {
    AppInterfaceFlag,
    MainMenuComponent,
    DebugUiComponent,
    FileSubMenuComponent,
    TerrainComponent,
    TerrainUiComponent,
    TransformComponent,
    TransformUiComponent,
    RenderableComponent,
    GeometryType,
    GeometryComponent,
    DirectionalLightComponent,
    AmbientLightingComponent,
    CameraComponent,
    InputComponent,
    SerializerFlag,
    VelocityComponent,
    UiPanelComponent,
    SceneGraphComponent,
    ComponentLibraryComponent,
    EntityInspectorComponent,
    FileMenuSaveComponent,
    EguiComponent,
}

/// A component attached to an entity, with the values the library holds of it.
#[derive(PartialEq, Eq, Debug)]
pub enum Component {
    DebugUi(DebugUiComponent),
    FileSubMenu(FileSubMenuComponent),
    Input(InputComponent),
    Renderable(RenderableComponent),
    Geometry(GeometryType),
    UiPanel(UiPanelComponent),
    /// A component of the given kind whose fields the library does not hold: a marker
    /// without fields, a menu whose interface handle belongs to the front end, or one whose
    /// data is floating point.
    Other(ComponentKind),
}

/// The values of a component.
pub enum ComponentData {
    DebugUi { show_profiler: bool, terrain_wireframe: bool },
    FileSubMenu {
        new_project_window: bool,
        open_project_window: bool,
        current_nav_path: Seq<char>,
        text_entry: Seq<char>,
    },
    Input { key_buffer: Seq<u32> },
    Renderable { initialized: bool },
    Geometry(GeometryType),
    UiPanel(PanelType),
    Other(ComponentKind),
}

impl ComponentData {
    /// The kind of the component.
    pub open spec fn kind(self) -> ComponentKind {
        match self {
            ComponentData::DebugUi { .. } => ComponentKind::DebugUiComponent,
            ComponentData::FileSubMenu { .. } => ComponentKind::FileSubMenuComponent,
            ComponentData::Input { .. } => ComponentKind::InputComponent,
            ComponentData::Renderable { .. } => ComponentKind::RenderableComponent,
            ComponentData::Geometry(_) => ComponentKind::GeometryType,
            ComponentData::UiPanel(_) => ComponentKind::UiPanelComponent,
            ComponentData::Other(k) => k,
        }
    }
}

/// The kinds of the components `cs`, in order.
pub open spec fn kinds_of(cs: Seq<ComponentData>) -> Seq<ComponentKind> {
    cs.map_values(|c: ComponentData| c.kind())
}

impl View for Component {
    type V = ComponentData;

    open spec fn view(&self) -> ComponentData {
        match self {
            Component::DebugUi(c) => ComponentData::DebugUi {
                show_profiler: c.show_profiler,
                terrain_wireframe: c.terrain_wireframe,
            },
            Component::FileSubMenu(c) => ComponentData::FileSubMenu {
                new_project_window: c.new_project_window,
                open_project_window: c.open_project_window,
                current_nav_path: c.current_nav_path@,
                text_entry: c.text_entry@,
            },
            Component::Input(c) => ComponentData::Input { key_buffer: c.key_buffer@ },
            Component::Renderable(c) => ComponentData::Renderable { initialized: c.initialized },
            Component::Geometry(t) => ComponentData::Geometry(*t),
            Component::UiPanel(p) => ComponentData::UiPanel(p.panel_type),
            Component::Other(k) => ComponentData::Other(*k),
        }
    }
}

/// A copy of the keys `q`, in order.
fn copy_keys(q: &VecDeque<u32>) -> (r: VecDeque<u32>)
    ensures
        r@ == q@,
{
    let mut r: VecDeque<u32> = VecDeque::new();
    let mut i: usize = 0;
    while i < q.len()
        invariant
            i <= q@.len(),
            r@ == q@.take(i as int),
        decreases q@.len() - i,
    {
        r.push_back(q[i]);
        i = i + 1;
        assert(r@ =~= q@.take(i as int));
    }
    assert(q@.take(i as int) =~= q@);
    r
}

impl Component {
    /// The kind of the component.
    pub fn kind(&self) -> (k: ComponentKind)
        ensures
            k == self@.kind(),
    {
        match self {
            Component::DebugUi(_) => ComponentKind::DebugUiComponent,
            Component::FileSubMenu(_) => ComponentKind::FileSubMenuComponent,
            Component::Input(_) => ComponentKind::InputComponent,
            Component::Renderable(_) => ComponentKind::RenderableComponent,
            Component::Geometry(_) => ComponentKind::GeometryType,
            Component::UiPanel(_) => ComponentKind::UiPanelComponent,
            Component::Other(k) => *k,
        }
    }

    /// A component with the same values.
    pub fn duplicate(&self) -> (c: Component)
        ensures
            c@ == self@,
    {
        match self {
            Component::DebugUi(c) => Component::DebugUi(
                DebugUiComponent { show_profiler: c.show_profiler, terrain_wireframe: c.terrain_wireframe },
            ),
            Component::FileSubMenu(c) => Component::FileSubMenu(
                FileSubMenuComponent {
                    new_project_window: c.new_project_window,
                    open_project_window: c.open_project_window,
                    current_nav_path: c.current_nav_path.clone(),
                    text_entry: c.text_entry.clone(),
                },
            ),
            Component::Input(c) => Component::Input(InputComponent { key_buffer: copy_keys(&c.key_buffer) }),
            Component::Renderable(c) => Component::Renderable(RenderableComponent { initialized: c.initialized }),
            Component::Geometry(t) => Component::Geometry(*t),
            Component::UiPanel(p) => Component::UiPanel(UiPanelComponent { panel_type: p.panel_type }),
            Component::Other(k) => Component::Other(*k),
        }
    }
}

/// A copy of the components `cs`, in order.
pub fn copy_components(cs: &Vec<Component>) -> (r: Vec<Component>)
    ensures
        r@.map_values(|c: Component| c@) == cs@.map_values(|c: Component| c@),
{
    let mut r: Vec<Component> = Vec::new();
    let mut i: usize = 0;
    while i < cs.len()
        invariant
            i <= cs@.len(),
            r@.len() == i,
            forall|j: int| 0 <= j < i ==> (#[trigger] r@[j])@ == cs@[j]@,
        decreases cs@.len() - i,
    {
        r.push(cs[i].duplicate());
        i = i + 1;
    }
    assert(r@.map_values(|c: Component| c@) =~= cs@.map_values(|c: Component| c@));
    r
}

/// The kinds of the components `cs`, in order.
pub fn component_kinds(cs: &Vec<Component>) -> (r: Vec<ComponentKind>)
    ensures
        r@ == kinds_of(cs@.map_values(|c: Component| c@)),
{
    let mut r: Vec<ComponentKind> = Vec::new();
    let mut i: usize = 0;
    while i < cs.len()
        invariant
            i <= cs@.len(),
            r@ == kinds_of(cs@.take(i as int).map_values(|c: Component| c@)),
        decreases cs@.len() - i,
    {
        r.push(cs[i].kind());
        i = i + 1;
        assert(r@ =~= kinds_of(cs@.take(i as int).map_values(|c: Component| c@)));
    }
    assert(cs@.take(i as int) =~= cs@);
    r
}

/// Whether the type reflects as an ECS component, so that a scene can attach it to an entity.
///
/// The geometry type is reflected as a plain value, and the file-menu save marker, the
/// renderable component and the egui component carry no component reflection.
pub open spec fn spec_reflects_component(kind: ComponentKind) -> bool {
    match kind {
        ComponentKind::GeometryType => false,
        ComponentKind::FileMenuSaveComponent => false,
        ComponentKind::RenderableComponent => false,
        ComponentKind::EguiComponent => false,
        _ => true,
    }
}

/// Whether the type reflects as an ECS component.
pub fn reflects_component(kind: ComponentKind) -> (b: bool)
    ensures
        b == spec_reflects_component(kind),
{
    match kind {
        ComponentKind::GeometryType => false,
        ComponentKind::FileMenuSaveComponent => false,
        ComponentKind::RenderableComponent => false,
        ComponentKind::EguiComponent => false,
        _ => true,
    }
}

/// The name under which a component type is registered: the full path of its type.
pub open spec fn spec_component_name(kind: ComponentKind) -> Seq<char> {
    match kind {
        ComponentKind::AppInterfaceFlag => "ember::core::plugins::components::ui::app_interface_flag::AppInterfaceFlag"@,
        ComponentKind::MainMenuComponent => "ember::core::plugins::components::ui::main_menu_component::MainMenuComponent"@,
        ComponentKind::DebugUiComponent => "ember::core::plugins::components::debug_ui_component::DebugUiComponent"@,
        ComponentKind::FileSubMenuComponent => "ember::core::plugins::components::ui::main_menu_component::FileSubMenuComponent"@,
        ComponentKind::TerrainComponent => "ember::core::plugins::components::terrain_component::TerrainComponent"@,
        ComponentKind::TerrainUiComponent => "ember::core::plugins::components::terrain_component::TerrainUiComponent"@,
        ComponentKind::TransformComponent => "ember::core::plugins::components::transform_component::TransformComponent"@,
        ComponentKind::TransformUiComponent => "ember::core::plugins::components::transform_component::TransformUiComponent"@,
        ComponentKind::RenderableComponent => "ember::core::plugins::components::renderable_component::RenderableComponent"@,
        ComponentKind::GeometryType => "ember::core::plugins::components::geometry_component::GeometryType"@,
        ComponentKind::GeometryComponent => "ember::core::plugins::components::geometry_component::GeometryComponent"@,
        ComponentKind::DirectionalLightComponent => "ember::core::plugins::components::light_components::DirectionalLightComponent"@,
        ComponentKind::AmbientLightingComponent => "ember::core::plugins::components::light_components::AmbientLightingComponent"@,
        ComponentKind::CameraComponent => "ember::core::plugins::components::camera_component::CameraComponent"@,
        ComponentKind::InputComponent => "ember::core::plugins::components::input_component::InputComponent"@,
        ComponentKind::SerializerFlag => "ember::core::plugins::components::serializer_component::SerializerFlag"@,
        ComponentKind::VelocityComponent => "ember::core::plugins::components::velocity_component::VelocityComponent"@,
        ComponentKind::UiPanelComponent => "ember::core::plugins::components::ui::main_menu_component::UiPanelComponent"@,
        ComponentKind::SceneGraphComponent => "ember::core::plugins::components::ui::scene_graph_component::SceneGraphComponent"@,
        ComponentKind::ComponentLibraryComponent => "ember::core::plugins::components::ui::main_menu_component::ComponentLibraryComponent"@,
        ComponentKind::EntityInspectorComponent => "ember::core::plugins::components::ui::main_menu_component::EntityInspectorComponent"@,
        ComponentKind::FileMenuSaveComponent => "ember::core::plugins::components::ui::main_menu_component::FileMenuSaveComponent"@,
        ComponentKind::EguiComponent => "ember::core::plugins::components::egui_component::EguiComponent"@,
    }
}

/// The name under which a component type is registered: the full path of its type.
pub fn component_name(kind: ComponentKind) -> (name: String)
    ensures
        name@ == spec_component_name(kind),
{
    let s: &str = match kind {
        ComponentKind::AppInterfaceFlag => "ember::core::plugins::components::ui::app_interface_flag::AppInterfaceFlag",
        ComponentKind::MainMenuComponent => "ember::core::plugins::components::ui::main_menu_component::MainMenuComponent",
        ComponentKind::DebugUiComponent => "ember::core::plugins::components::debug_ui_component::DebugUiComponent",
        ComponentKind::FileSubMenuComponent => "ember::core::plugins::components::ui::main_menu_component::FileSubMenuComponent",
        ComponentKind::TerrainComponent => "ember::core::plugins::components::terrain_component::TerrainComponent",
        ComponentKind::TerrainUiComponent => "ember::core::plugins::components::terrain_component::TerrainUiComponent",
        ComponentKind::TransformComponent => "ember::core::plugins::components::transform_component::TransformComponent",
        ComponentKind::TransformUiComponent => "ember::core::plugins::components::transform_component::TransformUiComponent",
        ComponentKind::RenderableComponent => "ember::core::plugins::components::renderable_component::RenderableComponent",
        ComponentKind::GeometryType => "ember::core::plugins::components::geometry_component::GeometryType",
        ComponentKind::GeometryComponent => "ember::core::plugins::components::geometry_component::GeometryComponent",
        ComponentKind::DirectionalLightComponent => "ember::core::plugins::components::light_components::DirectionalLightComponent",
        ComponentKind::AmbientLightingComponent => "ember::core::plugins::components::light_components::AmbientLightingComponent",
        ComponentKind::CameraComponent => "ember::core::plugins::components::camera_component::CameraComponent",
        ComponentKind::InputComponent => "ember::core::plugins::components::input_component::InputComponent",
        ComponentKind::SerializerFlag => "ember::core::plugins::components::serializer_component::SerializerFlag",
        ComponentKind::VelocityComponent => "ember::core::plugins::components::velocity_component::VelocityComponent",
        ComponentKind::UiPanelComponent => "ember::core::plugins::components::ui::main_menu_component::UiPanelComponent",
        ComponentKind::SceneGraphComponent => "ember::core::plugins::components::ui::scene_graph_component::SceneGraphComponent",
        ComponentKind::ComponentLibraryComponent => "ember::core::plugins::components::ui::main_menu_component::ComponentLibraryComponent",
        ComponentKind::EntityInspectorComponent => "ember::core::plugins::components::ui::main_menu_component::EntityInspectorComponent",
        ComponentKind::FileMenuSaveComponent => "ember::core::plugins::components::ui::main_menu_component::FileMenuSaveComponent",
        ComponentKind::EguiComponent => "ember::core::plugins::components::egui_component::EguiComponent",
    };
    s.to_owned()
}

/// Every component kind, each once.
pub fn all_component_kinds() -> (v: Vec<ComponentKind>)
    ensures
        forall|k: ComponentKind| #[trigger] v@.contains(k),
        v@.no_duplicates(),
{
    let mut v: Vec<ComponentKind> = Vec::new();
    v.push(ComponentKind::AppInterfaceFlag);
    v.push(ComponentKind::MainMenuComponent);
    v.push(ComponentKind::DebugUiComponent);
    v.push(ComponentKind::FileSubMenuComponent);
    v.push(ComponentKind::TerrainComponent);
    v.push(ComponentKind::TerrainUiComponent);
    v.push(ComponentKind::TransformComponent);
    v.push(ComponentKind::TransformUiComponent);
    v.push(ComponentKind::RenderableComponent);
    v.push(ComponentKind::GeometryType);
    v.push(ComponentKind::GeometryComponent);
    v.push(ComponentKind::DirectionalLightComponent);
    v.push(ComponentKind::AmbientLightingComponent);
    v.push(ComponentKind::CameraComponent);
    v.push(ComponentKind::InputComponent);
    v.push(ComponentKind::SerializerFlag);
    v.push(ComponentKind::VelocityComponent);
    v.push(ComponentKind::UiPanelComponent);
    v.push(ComponentKind::SceneGraphComponent);
    v.push(ComponentKind::ComponentLibraryComponent);
    v.push(ComponentKind::EntityInspectorComponent);
    v.push(ComponentKind::FileMenuSaveComponent);
    v.push(ComponentKind::EguiComponent);
    proof {
        assert forall|k: ComponentKind| #[trigger] v@.contains(k) by {
            match k {
                ComponentKind::AppInterfaceFlag => assert(v@[0] == k),
                ComponentKind::MainMenuComponent => assert(v@[1] == k),
                ComponentKind::DebugUiComponent => assert(v@[2] == k),
                ComponentKind::FileSubMenuComponent => assert(v@[3] == k),
                ComponentKind::TerrainComponent => assert(v@[4] == k),
                ComponentKind::TerrainUiComponent => assert(v@[5] == k),
                ComponentKind::TransformComponent => assert(v@[6] == k),
                ComponentKind::TransformUiComponent => assert(v@[7] == k),
                ComponentKind::RenderableComponent => assert(v@[8] == k),
                ComponentKind::GeometryType => assert(v@[9] == k),
                ComponentKind::GeometryComponent => assert(v@[10] == k),
                ComponentKind::DirectionalLightComponent => assert(v@[11] == k),
                ComponentKind::AmbientLightingComponent => assert(v@[12] == k),
                ComponentKind::CameraComponent => assert(v@[13] == k),
                ComponentKind::InputComponent => assert(v@[14] == k),
                ComponentKind::SerializerFlag => assert(v@[15] == k),
                ComponentKind::VelocityComponent => assert(v@[16] == k),
                ComponentKind::UiPanelComponent => assert(v@[17] == k),
                ComponentKind::SceneGraphComponent => assert(v@[18] == k),
                ComponentKind::ComponentLibraryComponent => assert(v@[19] == k),
                ComponentKind::EntityInspectorComponent => assert(v@[20] == k),
                ComponentKind::FileMenuSaveComponent => assert(v@[21] == k),
                ComponentKind::EguiComponent => assert(v@[22] == k),
            }
        }
    }
    v
}

/// The component kind registered under `name`; `None` where no kind is.
pub fn component_kind_from_name(name: &str) -> (r: Option<ComponentKind>)
    ensures
        match r {
            Some(k) => spec_component_name(k) == name@,
            None => forall|k: ComponentKind| #[trigger] spec_component_name(k) != name@,
        },
{
    let kinds = all_component_kinds();
    let wanted = name.to_owned();
    let mut i: usize = 0;
    while i < kinds.len()
        invariant
            i <= kinds@.len(),
            wanted@ == name@,
            forall|k: ComponentKind| #[trigger] kinds@.contains(k),
            forall|j: int| 0 <= j < i ==> spec_component_name(#[trigger] kinds@[j]) != name@,
        decreases kinds@.len() - i,
    {
        let kind = kinds[i];
        if component_name(kind) == wanted {
            return Some(kind);
        }
        i = i + 1;
    }
    proof {
        assert forall|k: ComponentKind| #[trigger] spec_component_name(k) != name@ by {
            assert(kinds@.contains(k));
            let j = kinds@.index_of(k);
            assert(kinds@[j] == k);
        }
    }
    None
}


} // verus!

verus! {

/// Whether `kind` occurs in `kinds`.
pub fn contains_kind(kinds: &Vec<ComponentKind>, kind: ComponentKind) -> (b: bool)
    ensures
        b == kinds@.contains(kind),
{
    let mut i: usize = 0;
    while i < kinds.len()
        invariant
            i <= kinds@.len(),
            forall|j: int| 0 <= j < i ==> kinds@[j] != kind,
        decreases kinds@.len() - i,
    {
        if kinds[i] == kind {
            return true;
        }
        i = i + 1;
    }
    false
}

/// A copy of `kinds`.
pub fn copy_kinds(kinds: &Vec<ComponentKind>) -> (r: Vec<ComponentKind>)
    ensures
        r@ == kinds@,
{
    let mut v: Vec<ComponentKind> = Vec::new();
    let mut i: usize = 0;
    while i < kinds.len()
        invariant
            i <= kinds@.len(),
            v@ == kinds@.subrange(0, i as int),
        decreases kinds@.len() - i,
    {
        v.push(kinds[i]);
        i = i + 1;
        proof {
            assert(v@ =~= kinds@.subrange(0, i as int));
        }
    }
    proof {
        assert(v@ =~= kinds@);
    }
    v
}

} // verus!
