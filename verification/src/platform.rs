//! Factory for static world fixtures: immovable ground bodies with one
//! box collider tagged `Platform`.

use vstd::prelude::*;

use crate::physics::{Body, BodyHandle, BodyKind, Collider, ColliderDesc, ColliderHandle, ObjectType};
use crate::util;
use crate::util::{Vec2, COORD_LIMIT};
use crate::world::World;

verus! {

/// A static platform: its declared half-extents, collider placement, and
/// nominal position (bookkeeping only, not consulted by the physics),
/// plus the handles it created. Immutable after construction.
#[derive(Debug, Clone, Copy)]
pub struct Platform {
    pub object_type: ObjectType,
    pub position: Vec2,
    pub shape: Vec2,
    pub collider_handle: ColliderHandle,
    pub body_handle: BodyHandle,
}

impl Platform {
    /// Build a box of half-extents `size`, insert a static ground body,
    /// and attach the collider at local `translation`, tagged `Platform`.
    /// The nominal `position` is recorded unchanged.
    pub fn new(size: Vec2, translation: Vec2, position: Vec2, world: &mut World) -> (r: Platform)
        requires
            old(world).physics.wf(),
            0 <= size.x <= COORD_LIMIT,
            0 <= size.y <= COORD_LIMIT,
            util::vec_in_range(translation),
        ensures
            final(world).physics.wf(),
            final(world).physics.bodies@ == old(world).physics.bodies@.push(
                Body {
                    kind: BodyKind::Static,
                    position: Vec2 { x: 0, y: 0 },
                    velocity: Vec2 { x: 0, y: 0 },
                    mass: 0,
                },
            ),
            final(world).physics.colliders@ == old(world).physics.colliders@.push(
                Collider {
                    body: BodyHandle { index: old(world).physics.bodies@.len() as usize },
                    half_extents: size,
                    offset: translation,
                    tag: ObjectType::Platform,
                },
            ),
            final(world).physics.gravity == old(world).physics.gravity,
            final(world).physics.ticks == old(world).physics.ticks,
            r.object_type == ObjectType::Platform,
            r.position == position,
            r.shape == size,
            r.body_handle.index == old(world).physics.bodies@.len(),
            r.collider_handle.index == old(world).physics.colliders@.len(),
    {
        let body_handle = world.physics.add_ground();
        let collider_desc = ColliderDesc {
            half_extents: size,
            translation,
            tag: ObjectType::Platform,
        };
        let collider_handle = world.physics.add_collider(body_handle, collider_desc);
        Platform {
            object_type: ObjectType::Platform,
            position,
            shape: size,
            collider_handle,
            body_handle,
        }
    }
}

} // verus!
