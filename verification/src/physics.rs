use vstd::prelude::*;

use crate::manager::Manager;
use crate::scene::{Active, Scene};

verus! {

/// The physics manager; it holds no state and does no work yet.
pub struct PhysicsManager {}

impl PhysicsManager {
    /// A physics manager.
    pub fn create_new() -> (m: Self)
        ensures
            m == (PhysicsManager {}),
    {
        let phys_sys = PhysicsManager {};
        phys_sys
    }
}

impl Manager for PhysicsManager {
    /// Starts the manager; there is nothing to set up.
    fn startup(&mut self)
        ensures
            *final(self) == *old(self),
    {
    }

    /// Shuts the manager down; there is nothing to release.
    fn shutdown(&mut self)
        ensures
            *final(self) == *old(self),
    {
    }

    /// Leaves the scene as it is.
    fn update(&mut self, scene: &mut Scene<Active>)
        ensures
            *final(self) == *old(self),
            *final(scene) == *old(scene),
    {
    }
}

} // verus!
