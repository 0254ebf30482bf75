//! The scene-scoped container owning exactly one physics world. A new
//! `World` is built per level entry; physics state never crosses scenes.

use vstd::prelude::*;

use crate::physics;

verus! {

/// Container owning the physics world for one scene.
pub struct World {
    pub physics: physics::Physics2D,
}

impl World {
    pub fn new() -> (r: Self)
        ensures
            r.physics.wf(),
            r.physics.bodies@.len() == 0,
            r.physics.colliders@.len() == 0,
            r.physics.ticks == 0,
    {
        World { physics: physics::Physics2D::new() }
    }
}

} // verus!
