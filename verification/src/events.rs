use vstd::prelude::*;

verus! {

/// Request to save the open project.
pub struct SaveEvent;

/// Request to load a project.
pub struct LoadEvent;

/// Request to close the open project.
pub struct CloseProjectEvent;

/// Request to open the project found at `project_path`.
pub struct OpenProjectEvent {
    pub project_path: String,
}

/// Request to create a new project at `project_path`.
pub struct CreateProjectEvent {
    pub project_path: String,
}

/// A message addressed to the scene manager, queued in the scene's message pump.
#[derive(Clone)]
pub enum SceneManagerMessage {
    OpenProject { path: String, scene_name: String },
    CloseProject,
}

} // verus!
