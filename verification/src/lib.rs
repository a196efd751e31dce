use vstd::prelude::*;

pub mod application;
pub mod components;
pub mod events;
pub mod geometry;
pub mod input;
pub mod manager;
pub mod message_pump;
pub mod physics;
pub mod render;
pub mod scene;
pub mod scene_builder;
pub mod scene_manager;
pub mod scene_registry;
pub mod scene_state;
pub mod schedule;
pub mod seq_facts;
pub mod serialization;
pub mod world;

verus! {

} // verus!
