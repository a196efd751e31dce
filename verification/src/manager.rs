use vstd::prelude::*;

use crate::scene::{Active, Scene};

verus! {

/// The life cycle that the engine's managers share.
pub trait Manager {
    fn startup(&mut self);

    fn shutdown(&mut self);

    fn update(&mut self, scene: &mut Scene<Active>);
}

} // verus!
