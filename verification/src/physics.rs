//! The rigid-body world: bodies, box colliders with classification tags,
//! fixed-timestep integration with contact resolution, and contact queries.
//!
//! Bodies are either dynamic (moved by gravity and impulses) or static
//! ground fixtures. Colliders are axis-aligned boxes attached to a body at a
//! local offset and tagged with an [`ObjectType`]; contact classification
//! reads that tag. Handles are indices into the world's arenas and stay
//! valid for the world's whole life (nothing is ever removed).

use vstd::prelude::*;

use crate::util;
use crate::util::{Vec2, COORD_LIMIT, SCALE, STEPS_PER_SECOND};

verus! {

/// Gravity magnitude configured at construction: 9.81 simulation units per
/// second squared, in micro-units.
pub const GRAVITY: i64 = 9_810_000;

/// Velocity gained from gravity in one fixed step: `GRAVITY` / 60 exactly.
pub const GRAVITY_STEP: i64 = 163_500;

/// Half of `SCALE`: a fixed-point value rounds to the nearest integer 0
/// exactly when its magnitude is below this.
pub const HALF_SCALE: i64 = 500_000;

/// Role of a collider, used purely for contact classification.
#[derive(PartialEq, Eq, Structural, Debug, Clone, Copy)]
pub enum ObjectType {
    Player,
    Platform,
}

/// Whether a body is moved by the simulation or is immovable ground.
#[derive(PartialEq, Eq, Structural, Debug, Clone, Copy)]
pub enum BodyKind {
    Dynamic,
    Static,
}

/// Opaque handle to a body: an index into the world's body arena.
#[derive(PartialEq, Eq, Structural, Debug, Clone, Copy)]
pub struct BodyHandle {
    pub index: usize,
}

/// Opaque handle to a collider: an index into the world's collider arena.
#[derive(PartialEq, Eq, Structural, Debug, Clone, Copy)]
pub struct ColliderHandle {
    pub index: usize,
}

/// A rigid entity: kinematic state plus mass (mass matters only for
/// dynamic bodies and is kept for bookkeeping).
#[derive(PartialEq, Eq, Structural, Debug, Clone, Copy)]
pub struct Body {
    pub kind: BodyKind,
    pub position: Vec2,
    pub velocity: Vec2,
    pub mass: i64,
}

/// An axis-aligned box attached to one body at a local offset, carrying its
/// classification tag.
#[derive(PartialEq, Eq, Structural, Debug, Clone, Copy)]
pub struct Collider {
    pub body: BodyHandle,
    pub half_extents: Vec2,
    pub offset: Vec2,
    pub tag: ObjectType,
}

/// Descriptor for a new dynamic body.
#[derive(PartialEq, Eq, Structural, Debug, Clone, Copy)]
pub struct RigidBodyDesc {
    pub translation: Vec2,
    pub mass: i64,
}

/// Descriptor for a new collider.
#[derive(PartialEq, Eq, Structural, Debug, Clone, Copy)]
pub struct ColliderDesc {
    pub half_extents: Vec2,
    pub translation: Vec2,
    pub tag: ObjectType,
}

/// One point-contact: a unit normal in micro-units and a penetration depth.
#[derive(PartialEq, Eq, Structural, Debug, Clone, Copy)]
pub struct ContactPoint {
    pub normal: Vec2,
    pub depth: i64,
}

/// The set of point-contacts produced when two colliders' boxes touch.
/// Ephemeral: recomputed per query from current geometry.
#[derive(Debug, Clone)]
pub struct ContactManifold {
    pub points: Vec<ContactPoint>,
}

/// The physics world: sole owner and mutator of all bodies and colliders.
pub struct Physics2D {
    pub bodies: Vec<Body>,
    pub colliders: Vec<Collider>,
    /// Gravity magnitude, configured once at construction.
    pub gravity: i64,
    /// Logical tick counter, incremented by the owning scene.
    pub ticks: usize,
}

pub open spec fn collider_ok(c: Collider, n_bodies: int) -> bool {
    &&& c.body.index < n_bodies
    &&& 0 <= c.half_extents.x <= COORD_LIMIT
    &&& 0 <= c.half_extents.y <= COORD_LIMIT
    &&& util::vec_in_range(c.offset)
}

pub open spec fn body_ok(b: Body) -> bool {
    util::vec_in_range(b.position) && util::vec_in_range(b.velocity)
}

impl Physics2D {
    /// Well-formedness: every collider points at an existing body, and all
    /// kinematic state lies inside the bounded simulation domain.
    pub open spec fn wf(&self) -> bool {
        &&& forall|k: int|
            0 <= k < self.bodies@.len() ==> body_ok(#[trigger] self.bodies@[k])
        &&& forall|k: int|
            0 <= k < self.colliders@.len() ==> collider_ok(
                #[trigger] self.colliders@[k],
                self.bodies@.len() as int,
            )
        &&& self.gravity == GRAVITY
    }

    pub open spec fn body_valid(&self, handle: BodyHandle) -> bool {
        handle.index < self.bodies@.len()
    }

    pub open spec fn dynamic_body_valid(&self, handle: BodyHandle) -> bool {
        &&& handle.index < self.bodies@.len()
        &&& self.bodies@[handle.index as int].kind == BodyKind::Dynamic
    }

    pub open spec fn collider_valid(&self, handle: ColliderHandle) -> bool {
        handle.index < self.colliders@.len()
    }

    pub fn new() -> (r: Self)
        ensures
            r.wf(),
            r.bodies@.len() == 0,
            r.colliders@.len() == 0,
            r.gravity == GRAVITY,
            r.ticks == 0,
    {
        Physics2D { bodies: Vec::new(), colliders: Vec::new(), gravity: GRAVITY, ticks: 0 }
    }

    /// The constant gravity magnitude configured at construction, exposed so
    /// controllers can derive tuned counter-forces.
    pub fn get_gravity(&self) -> (r: i64)
        ensures
            r == self.gravity,
    {
        self.gravity
    }

    /// Insert a new dynamic body with the descriptor's translation and mass.
    /// The returned handle stays valid for the world's whole life.
    pub fn add_rigid_body(&mut self, rigid_body_desc: RigidBodyDesc) -> (r: BodyHandle)
        requires
            old(self).wf(),
            util::vec_in_range(rigid_body_desc.translation),
        ensures
            final(self).wf(),
            r.index == old(self).bodies@.len(),
            final(self).bodies@ == old(self).bodies@.push(
                Body {
                    kind: BodyKind::Dynamic,
                    position: rigid_body_desc.translation,
                    velocity: Vec2 { x: 0, y: 0 },
                    mass: rigid_body_desc.mass,
                },
            ),
            final(self).colliders == old(self).colliders,
            final(self).gravity == old(self).gravity,
            final(self).ticks == old(self).ticks,
            final(self).dynamic_body_valid(r),
    {
        let handle = BodyHandle { index: self.bodies.len() };
        self.bodies.push(
            Body {
                kind: BodyKind::Dynamic,
                position: rigid_body_desc.translation,
                velocity: Vec2 { x: 0, y: 0 },
                mass: rigid_body_desc.mass,
            },
        );
        handle
    }

    /// Insert a new immovable ground body at the origin.
    pub fn add_ground(&mut self) -> (r: BodyHandle)
        requires
            old(self).wf(),
        ensures
            final(self).wf(),
            r.index == old(self).bodies@.len(),
            final(self).bodies@ == old(self).bodies@.push(
                Body {
                    kind: BodyKind::Static,
                    position: Vec2 { x: 0, y: 0 },
                    velocity: Vec2 { x: 0, y: 0 },
                    mass: 0,
                },
            ),
            final(self).colliders == old(self).colliders,
            final(self).gravity == old(self).gravity,
            final(self).ticks == old(self).ticks,
            final(self).body_valid(r),
    {
        let handle = BodyHandle { index: self.bodies.len() };
        self.bodies.push(
            Body {
                kind: BodyKind::Static,
                position: Vec2 { x: 0, y: 0 },
                velocity: Vec2 { x: 0, y: 0 },
                mass: 0,
            },
        );
        handle
    }

    /// Attach a box shape plus tag to an existing body at a local offset.
    pub fn add_collider(&mut self, body_handle: BodyHandle, collider_desc: ColliderDesc) -> (r:
        ColliderHandle)
        requires
            old(self).wf(),
            old(self).body_valid(body_handle),
            0 <= collider_desc.half_extents.x <= COORD_LIMIT,
            0 <= collider_desc.half_extents.y <= COORD_LIMIT,
            util::vec_in_range(collider_desc.translation),
        ensures
            final(self).wf(),
            r.index == old(self).colliders@.len(),
            final(self).colliders@ == old(self).colliders@.push(
                Collider {
                    body: body_handle,
                    half_extents: collider_desc.half_extents,
                    offset: collider_desc.translation,
                    tag: collider_desc.tag,
                },
            ),
            final(self).bodies == old(self).bodies,
            final(self).gravity == old(self).gravity,
            final(self).ticks == old(self).ticks,
            final(self).collider_valid(r),
    {
        let handle = ColliderHandle { index: self.colliders.len() };
        self.colliders.push(
            Collider {
                body: body_handle,
                half_extents: collider_desc.half_extents,
                offset: collider_desc.translation,
                tag: collider_desc.tag,
            },
        );
        handle
    }

    /// Read a dynamic body's translation.
    pub fn get_position(&self, handle: BodyHandle) -> (r: Vec2)
        requires
            self.wf(),
            self.dynamic_body_valid(handle),
        ensures
            r == self.bodies@[handle.index as int].position,
    {
        self.bodies[handle.index].position
    }

    /// Write a dynamic body's translation.
    pub fn set_position(&mut self, handle: BodyHandle, point: Vec2)
        requires
            old(self).wf(),
            old(self).dynamic_body_valid(handle),
            util::vec_in_range(point),
        ensures
            final(self).wf(),
            final(self).bodies@ == old(self).bodies@.update(
                handle.index as int,
                Body { position: point, ..old(self).bodies@[handle.index as int] },
            ),
            final(self).colliders == old(self).colliders,
            final(self).gravity == old(self).gravity,
            final(self).ticks == old(self).ticks,
    {
        let b = self.bodies[handle.index];
        self.bodies.set(handle.index, Body { position: point, ..b });
    }

    /// Read a dynamic body's linear velocity, as a point-shaped vector for
    /// uniformity with position arithmetic.
    pub fn get_velocity(&self, handle: BodyHandle) -> (r: Vec2)
        requires
            self.wf(),
            self.dynamic_body_valid(handle),
        ensures
            r == self.bodies@[handle.index as int].velocity,
    {
        self.bodies[handle.index].velocity
    }

    /// Write a dynamic body's linear velocity.
    pub fn set_velocity(&mut self, handle: BodyHandle, velocity: Vec2)
        requires
            old(self).wf(),
            old(self).dynamic_body_valid(handle),
            util::vec_in_range(velocity),
        ensures
            final(self).wf(),
            final(self).bodies@ == old(self).bodies@.update(
                handle.index as int,
                Body { velocity, ..old(self).bodies@[handle.index as int] },
            ),
            final(self).colliders == old(self).colliders,
            final(self).gravity == old(self).gravity,
            final(self).ticks == old(self).ticks,
    {
        let b = self.bodies[handle.index];
        self.bodies.set(handle.index, Body { velocity, ..b });
    }

    /// Look a collider up by handle.
    pub fn get_collider(&self, handle: ColliderHandle) -> (r: Collider)
        requires
            self.wf(),
            self.collider_valid(handle),
        ensures
            r == self.colliders@[handle.index as int],
    {
        self.colliders[handle.index]
    }

    /// The classification tags of two colliders, queried one first.
    pub fn retrieve_user_datas(&self, this_handle: ColliderHandle, that_handle: ColliderHandle)
        -> (r: (ObjectType, ObjectType))
        requires
            self.wf(),
            self.collider_valid(this_handle),
            self.collider_valid(that_handle),
        ensures
            r.0 == self.colliders@[this_handle.index as int].tag,
            r.1 == self.colliders@[that_handle.index as int].tag,
    {
        (self.colliders[this_handle.index].tag, self.colliders[that_handle.index].tag)
    }
}

/// World-space X coordinate of a collider's box center, over raw arenas.
pub open spec fn seq_center_x(bodies: Seq<Body>, colliders: Seq<Collider>, k: int) -> int {
    bodies[colliders[k].body.index as int].position.x + colliders[k].offset.x
}

/// World-space Y coordinate of a collider's box center, over raw arenas.
pub open spec fn seq_center_y(bodies: Seq<Body>, colliders: Seq<Collider>, k: int) -> int {
    bodies[colliders[k].body.index as int].position.y + colliders[k].offset.y
}

/// Box contact over raw arenas: the center distance on each axis is at
/// most the sum of the half-extents on that axis.
pub open spec fn seq_touching(bodies: Seq<Body>, colliders: Seq<Collider>, i: int, j: int) -> bool {
    &&& util::abs_spec(seq_center_x(bodies, colliders, i) - seq_center_x(bodies, colliders, j))
        <= colliders[i].half_extents.x + colliders[j].half_extents.x
    &&& util::abs_spec(seq_center_y(bodies, colliders, i) - seq_center_y(bodies, colliders, j))
        <= colliders[i].half_extents.y + colliders[j].half_extents.y
}

/// World-space X coordinate of a collider's box center.
pub open spec fn center_x(w: Physics2D, k: int) -> int {
    seq_center_x(w.bodies@, w.colliders@, k)
}

/// World-space Y coordinate of a collider's box center.
pub open spec fn center_y(w: Physics2D, k: int) -> int {
    seq_center_y(w.bodies@, w.colliders@, k)
}

/// Two axis-aligned boxes touch or overlap: the center distance on each
/// axis is at most the sum of the half-extents on that axis.
pub open spec fn touching_spec(w: Physics2D, i: int, j: int) -> bool {
    seq_touching(w.bodies@, w.colliders@, i, j)
}

/// Penetration depth along X over raw arenas (nonnegative exactly when
/// the boxes touch on X).
pub open spec fn seq_pen_x(bodies: Seq<Body>, colliders: Seq<Collider>, i: int, j: int) -> int {
    colliders[i].half_extents.x + colliders[j].half_extents.x - util::abs_spec(
        seq_center_x(bodies, colliders, i) - seq_center_x(bodies, colliders, j),
    )
}

/// Penetration depth along Y over raw arenas.
pub open spec fn seq_pen_y(bodies: Seq<Body>, colliders: Seq<Collider>, i: int, j: int) -> int {
    colliders[i].half_extents.y + colliders[j].half_extents.y - util::abs_spec(
        seq_center_y(bodies, colliders, i) - seq_center_y(bodies, colliders, j),
    )
}

/// The single point-contact of a touching pair, in a canonical orientation:
/// the normal lies on the axis of least penetration and points from the
/// lower-indexed collider toward the higher-indexed one (ties point along
/// the positive axis), so the manifold geometry does not depend on which of
/// the two colliders is queried.
pub open spec fn seq_contact_point(
    bodies: Seq<Body>,
    colliders: Seq<Collider>,
    i: int,
    j: int,
) -> ContactPoint {
    let lo = if i <= j { i } else { j };
    let hi = if i <= j { j } else { i };
    let dx = seq_center_x(bodies, colliders, hi) - seq_center_x(bodies, colliders, lo);
    let dy = seq_center_y(bodies, colliders, hi) - seq_center_y(bodies, colliders, lo);
    if seq_pen_y(bodies, colliders, i, j) <= seq_pen_x(bodies, colliders, i, j) {
        ContactPoint {
            normal: Vec2 { x: 0, y: if dy >= 0 { SCALE } else { (-SCALE) as i64 } },
            depth: seq_pen_y(bodies, colliders, i, j) as i64,
        }
    } else {
        ContactPoint {
            normal: Vec2 { x: if dx >= 0 { SCALE } else { (-SCALE) as i64 }, y: 0 },
            depth: seq_pen_x(bodies, colliders, i, j) as i64,
        }
    }
}

/// Penetration depth along X.
pub open spec fn pen_x_spec(w: Physics2D, i: int, j: int) -> int {
    seq_pen_x(w.bodies@, w.colliders@, i, j)
}

/// Penetration depth along Y.
pub open spec fn pen_y_spec(w: Physics2D, i: int, j: int) -> int {
    seq_pen_y(w.bodies@, w.colliders@, i, j)
}

/// The canonical point-contact of a touching pair of this world.
pub open spec fn contact_point_spec(w: Physics2D, i: int, j: int) -> ContactPoint {
    seq_contact_point(w.bodies@, w.colliders@, i, j)
}

/// The colliders among the first `n` that currently touch collider `h`
/// (other than `h` itself), in ascending index order.
pub open spec fn collision_partners(w: Physics2D, h: int, n: int) -> Seq<int>
    decreases n,
{
    if n <= 0 {
        Seq::empty()
    } else {
        let rest = collision_partners(w, h, n - 1);
        if n - 1 != h && touching_spec(w, h, n - 1) {
            rest.push(n - 1)
        } else {
            rest
        }
    }
}

/// A fixed-point value rounds to the nearest integer 0 exactly when its
/// magnitude is under half a unit (ties round away from zero).
pub open spec fn rounds_to_zero(x: int) -> bool {
    -HALF_SCALE < x < HALF_SCALE
}

/// A manifold counts as ground-like if some contact point's normal has an
/// X component that rounds to 0: the contact is vertical rather than a
/// side collision.
pub open spec fn manifold_on_ground_spec(points: Seq<ContactPoint>) -> bool {
    exists|i: int| 0 <= i < points.len() && rounds_to_zero(#[trigger] points[i].normal.x as int)
}

/// Ground classification: some current contact pairs collider `h` with a
/// `Platform`-tagged collider through a ground-like contact point.
pub open spec fn ground_check_spec(w: Physics2D, h: int) -> bool {
    exists|k: int|
        0 <= k < w.colliders@.len() && k != h && #[trigger] touching_spec(w, h, k)
            && w.colliders@[k].tag == ObjectType::Platform && rounds_to_zero(
            contact_point_spec(w, h, k).normal.x as int,
        )
}

/// Ground classification over raw arenas, for stating what a whole scene
/// tick observes after the simulator step.
pub open spec fn seq_ground_check(bodies: Seq<Body>, colliders: Seq<Collider>, h: int) -> bool {
    exists|k: int|
        0 <= k < colliders.len() && k != h && #[trigger] seq_touching(bodies, colliders, h, k)
            && colliders[k].tag == ObjectType::Platform && rounds_to_zero(
            seq_contact_point(bodies, colliders, h, k).normal.x as int,
        )
}

/// The world-level and arena-level ground classifications agree.
pub proof fn lemma_ground_check_spec_is_seq(w: Physics2D, h: int)
    ensures
        ground_check_spec(w, h) == seq_ground_check(w.bodies@, w.colliders@, h),
{
    if ground_check_spec(w, h) {
        let k = choose|k: int|
            0 <= k < w.colliders@.len() && k != h && #[trigger] touching_spec(w, h, k)
                && w.colliders@[k].tag == ObjectType::Platform && rounds_to_zero(
                contact_point_spec(w, h, k).normal.x as int,
            );
        assert(seq_touching(w.bodies@, w.colliders@, h, k));
        assert(seq_ground_check(w.bodies@, w.colliders@, h));
    }
    if seq_ground_check(w.bodies@, w.colliders@, h) {
        let k = choose|k: int|
            0 <= k < w.colliders@.len() && k != h && #[trigger] seq_touching(
                w.bodies@,
                w.colliders@,
                h,
                k,
            ) && w.colliders@[k].tag == ObjectType::Platform && rounds_to_zero(
                seq_contact_point(w.bodies@, w.colliders@, h, k).normal.x as int,
            );
        assert(touching_spec(w, h, k));
        assert(ground_check_spec(w, h));
    }
}

/// Every listed partner is a real touching collider, and every touching
/// collider is listed: the two directions of the query's completeness.
pub proof fn lemma_collision_partners_props(w: Physics2D, h: int, n: int)
    requires
        0 <= n <= w.colliders@.len(),
    ensures
        forall|idx: int|
            0 <= idx < collision_partners(w, h, n).len() ==> {
                let k = #[trigger] collision_partners(w, h, n)[idx];
                0 <= k < n && k != h && touching_spec(w, h, k)
            },
        forall|k: int|
            0 <= k < n && k != h && #[trigger] touching_spec(w, h, k) ==> collision_partners(
                w,
                h,
                n,
            ).contains(k),
    decreases n,
{
    if n > 0 {
        lemma_collision_partners_props(w, h, n - 1);
        let prev = collision_partners(w, h, n - 1);
        let cur = collision_partners(w, h, n);
        assert forall|k: int|
            0 <= k < n && k != h && #[trigger] touching_spec(w, h, k) implies cur.contains(
            k,
        ) by {
            if k < n - 1 {
                let idx = choose|idx: int| 0 <= idx < prev.len() && prev[idx] == k;
                assert(cur[idx] == k);
            } else {
                assert(cur[cur.len() - 1] == k);
            }
        }
    }
}

impl Physics2D {
    /// Whether the boxes of two colliders currently touch or overlap.
    fn boxes_touching(&self, i: usize, j: usize) -> (r: bool)
        requires
            self.wf(),
            i < self.colliders@.len(),
            j < self.colliders@.len(),
        ensures
            r == touching_spec(*self, i as int, j as int),
    {
        let ci = self.colliders[i];
        let cj = self.colliders[j];
        let cxi = self.bodies[ci.body.index].position.x + ci.offset.x;
        let cyi = self.bodies[ci.body.index].position.y + ci.offset.y;
        let cxj = self.bodies[cj.body.index].position.x + cj.offset.x;
        let cyj = self.bodies[cj.body.index].position.y + cj.offset.y;
        let dx = if cxi >= cxj {
            cxi - cxj
        } else {
            cxj - cxi
        };
        let dy = if cyi >= cyj {
            cyi - cyj
        } else {
            cyj - cyi
        };
        dx <= ci.half_extents.x + cj.half_extents.x && dy <= ci.half_extents.y
            + cj.half_extents.y
    }

    /// The canonical point-contact of a touching pair.
    fn contact_point(&self, i: usize, j: usize) -> (r: ContactPoint)
        requires
            self.wf(),
            i < self.colliders@.len(),
            j < self.colliders@.len(),
        ensures
            r == contact_point_spec(*self, i as int, j as int),
    {
        let lo = if i <= j {
            i
        } else {
            j
        };
        let hi = if i <= j {
            j
        } else {
            i
        };
        let clo = self.colliders[lo];
        let chi = self.colliders[hi];
        let dx = (self.bodies[chi.body.index].position.x + chi.offset.x) - (self.bodies[clo.body.index].position.x + clo.offset.x);
        let dy = (self.bodies[chi.body.index].position.y + chi.offset.y) - (self.bodies[clo.body.index].position.y + clo.offset.y);
        let adx = if dx >= 0 {
            dx
        } else {
            -dx
        };
        let ady = if dy >= 0 {
            dy
        } else {
            -dy
        };
        let pen_x = clo.half_extents.x + chi.half_extents.x - adx;
        let pen_y = clo.half_extents.y + chi.half_extents.y - ady;
        if pen_y <= pen_x {
            ContactPoint {
                normal: Vec2 { x: 0, y: if dy >= 0 { SCALE } else { -SCALE } },
                depth: pen_y,
            }
        } else {
            ContactPoint {
                normal: Vec2 { x: if dx >= 0 { SCALE } else { -SCALE }, y: 0 },
                depth: pen_x,
            }
        }
    }

    /// All current contacts involving the given collider: each touching
    /// partner contributes the tag pair (self first, other second) and a
    /// fresh manifold, partners in ascending handle order.
    pub fn collisions(&self, handle: ColliderHandle) -> (r: Vec<
        ((ObjectType, ObjectType), ContactManifold),
    >)
        requires
            self.wf(),
            self.collider_valid(handle),
        ensures
            r@.len() == collision_partners(
                *self,
                handle.index as int,
                self.colliders@.len() as int,
            ).len(),
            forall|i: int|
                0 <= i < r@.len() ==> {
                    let k = collision_partners(
                        *self,
                        handle.index as int,
                        self.colliders@.len() as int,
                    )[i];
                    &&& (#[trigger] r@[i]).0.0 == self.colliders@[handle.index as int].tag
                    &&& r@[i].0.1 == self.colliders@[k].tag
                    &&& r@[i].1.points@ == seq![contact_point_spec(*self, handle.index as int, k)]
                },
    {
        let h = handle.index;
        let m = self.colliders.len();
        let mut r: Vec<((ObjectType, ObjectType), ContactManifold)> = Vec::new();
        let mut k: usize = 0;
        while k < m
            invariant
                self.wf(),
                h < self.colliders@.len(),
                m == self.colliders@.len(),
                k <= m,
                r@.len() == collision_partners(*self, h as int, k as int).len(),
                forall|i: int|
                    0 <= i < r@.len() ==> {
                        let p = collision_partners(*self, h as int, k as int)[i];
                        &&& (#[trigger] r@[i]).0.0 == self.colliders@[h as int].tag
                        &&& r@[i].0.1 == self.colliders@[p].tag
                        &&& r@[i].1.points@ == seq![contact_point_spec(*self, h as int, p)]
                    },
            decreases m - k,
        {
            proof {
                lemma_collision_partners_props(*self, h as int, k as int);
            }
            if k != h && self.boxes_touching(h, k) {
                let point = self.contact_point(h, k);
                let mut points: Vec<ContactPoint> = Vec::new();
                points.push(point);
                let manifold = ContactManifold { points };
                r.push(((self.colliders[h].tag, self.colliders[k].tag), manifold));
            }
            k += 1;
        }
        r
    }

    /// Whether some contact point of a manifold is ground-like: its normal's
    /// X component rounds to the nearest integer 0.
    fn on_ground(&self, manifold: &ContactManifold) -> (r: bool)
        ensures
            r == manifold_on_ground_spec(manifold.points@),
    {
        let n = manifold.points.len();
        let mut found = false;
        let mut i: usize = 0;
        while i < n
            invariant
                n == manifold.points@.len(),
                i <= n,
                found == exists|j: int|
                    0 <= j < i && rounds_to_zero(#[trigger] manifold.points@[j].normal.x as int),
            decreases n - i,
        {
            let x = manifold.points[i].normal.x;
            if -HALF_SCALE < x && x < HALF_SCALE {
                found = true;
            }
            i += 1;
        }
        found
    }

    /// Convenience ground classifier built on `collisions`: true exactly
    /// when some current contact pairs the collider with a
    /// `Platform`-tagged collider through a ground-like contact point.
    pub fn ground_check(&self, collider_handle: ColliderHandle, _object_type: ObjectType) -> (r:
        bool)
        requires
            self.wf(),
            self.collider_valid(collider_handle),
        ensures
            r == ground_check_spec(*self, collider_handle.index as int),
    {
        let ghost w = *self;
        let ghost h = collider_handle.index as int;
        let ghost n = self.colliders@.len() as int;
        let ghost partners = collision_partners(w, h, n);
        let contacts = self.collisions(collider_handle);
        let mut on_ground = false;
        let mut i: usize = 0;
        let len = contacts.len();
        while i < len
            invariant
                len == contacts@.len(),
                i <= len,
                partners == collision_partners(w, h, n),
                contacts@.len() == partners.len(),
                forall|j: int|
                    0 <= j < contacts@.len() ==> {
                        &&& (#[trigger] contacts@[j]).0.1 == w.colliders@[partners[j]].tag
                        &&& contacts@[j].1.points@ == seq![contact_point_spec(w, h, partners[j])]
                    },
                on_ground == exists|j: int|
                    0 <= j < i && (#[trigger] contacts@[j]).0.1 == ObjectType::Platform
                        && manifold_on_ground_spec(contacts@[j].1.points@),
            decreases len - i,
        {
            let (user_datas, manifold) = &contacts[i];
            match user_datas.1 {
                ObjectType::Platform => {
                    if self.on_ground(manifold) {
                        on_ground = true;
                    }
                },
                _ => (),
            }
            i += 1;
        }
        proof {
            lemma_collision_partners_props(w, h, n);
            if on_ground {
                let j = choose|j: int|
                    0 <= j < contacts@.len() && (#[trigger] contacts@[j]).0.1
                        == ObjectType::Platform && manifold_on_ground_spec(contacts@[j].1.points@);
                let k = partners[j];
                assert(contacts@[j].1.points@ == seq![contact_point_spec(w, h, k)]);
                assert(rounds_to_zero(contact_point_spec(w, h, k).normal.x as int));
                assert(touching_spec(w, h, k));
            } else {
                assert forall|k: int|
                    0 <= k < w.colliders@.len() && k != h && #[trigger] touching_spec(w, h, k)
                        && w.colliders@[k].tag == ObjectType::Platform implies !rounds_to_zero(
                    contact_point_spec(w, h, k).normal.x as int,
                ) by {
                    assert(partners.contains(k));
                    let j = choose|j: int| 0 <= j < partners.len() && partners[j] == k;
                    assert(contacts@[j].0.1 == w.colliders@[k].tag);
                    assert(contacts@[j].1.points@ == seq![contact_point_spec(w, h, k)]);
                    assert(!manifold_on_ground_spec(contacts@[j].1.points@));
                    assert(contacts@[j].1.points@[0] == contact_point_spec(w, h, k));
                }
            }
        }
        on_ground
    }
}

/// One fixed step of gravity integration on a single body: a dynamic body
/// gains `GRAVITY_STEP` of downward velocity (clamped to the simulation
/// domain), then moves by one sixtieth of its new velocity, truncated
/// toward zero and clamped; a static body is untouched.
pub open spec fn integrate_body_spec(b: Body) -> Body {
    if b.kind == BodyKind::Dynamic {
        let vy = util::clamp_spec(b.velocity.y + GRAVITY_STEP);
        let px = util::clamp_spec(
            b.position.x + util::trunc_div_spec(b.velocity.x as int, STEPS_PER_SECOND as int),
        );
        let py = util::clamp_spec(b.position.y + util::trunc_div_spec(vy, STEPS_PER_SECOND as int));
        Body {
            position: Vec2 { x: px as i64, y: py as i64 },
            velocity: Vec2 { x: b.velocity.x, y: vy as i64 },
            ..b
        }
    } else {
        b
    }
}

/// Gravity integration over the whole arena.
pub open spec fn integrate_all_spec(bodies: Seq<Body>) -> Seq<Body> {
    Seq::new(bodies.len(), |i: int| integrate_body_spec(bodies[i]))
}

/// Impulse-style resolution of one dynamic body against one static box:
/// the body is projected out along the axis of least penetration, away
/// from the static center (a tie pushes up, then left), its velocity
/// component into the contact is zeroed, and the moved coordinate is
/// clamped to the simulation domain.
pub open spec fn resolved_body_spec(
    b: Body,
    dcx: int,
    dcy: int,
    scx: int,
    scy: int,
    pen_x: int,
    pen_y: int,
) -> Body {
    if pen_y <= pen_x {
        let above = dcy - scy <= 0;
        let py = util::clamp_spec(if above { b.position.y - pen_y } else { b.position.y + pen_y });
        let vy: int = if above {
            if b.velocity.y > 0 { 0 } else { b.velocity.y as int }
        } else {
            if b.velocity.y < 0 { 0 } else { b.velocity.y as int }
        };
        Body {
            position: Vec2 { x: b.position.x, y: py as i64 },
            velocity: Vec2 { x: b.velocity.x, y: vy as i64 },
            ..b
        }
    } else {
        let left = dcx - scx <= 0;
        let px = util::clamp_spec(if left { b.position.x - pen_x } else { b.position.x + pen_x });
        let vx: int = if left {
            if b.velocity.x > 0 { 0 } else { b.velocity.x as int }
        } else {
            if b.velocity.x < 0 { 0 } else { b.velocity.x as int }
        };
        Body {
            position: Vec2 { x: px as i64, y: b.position.y },
            velocity: Vec2 { x: vx as i64, y: b.velocity.y },
            ..b
        }
    }
}

/// One candidate contact of the resolution sweep: if collider `i` sits on
/// a dynamic body, collider `j` on a static one, and their boxes touch,
/// the dynamic body is resolved; otherwise nothing changes.
pub open spec fn resolve_pair_spec(
    bodies: Seq<Body>,
    colliders: Seq<Collider>,
    i: int,
    j: int,
) -> Seq<Body> {
    let bi = colliders[i].body.index as int;
    let bj = colliders[j].body.index as int;
    if bodies[bi].kind == BodyKind::Dynamic && bodies[bj].kind == BodyKind::Static
        && seq_touching(bodies, colliders, i, j) {
        let dcx = seq_center_x(bodies, colliders, i);
        let dcy = seq_center_y(bodies, colliders, i);
        let scx = seq_center_x(bodies, colliders, j);
        let scy = seq_center_y(bodies, colliders, j);
        let pen_x = colliders[i].half_extents.x + colliders[j].half_extents.x - util::abs_spec(
            dcx - scx,
        );
        let pen_y = colliders[i].half_extents.y + colliders[j].half_extents.y - util::abs_spec(
            dcy - scy,
        );
        bodies.update(bi, resolved_body_spec(bodies[bi], dcx, dcy, scx, scy, pen_x, pen_y))
    } else {
        bodies
    }
}

/// The resolution sweep for collider `i` against the first `j` colliders,
/// in ascending order, each pair seeing the positions the previous pairs
/// produced.
pub open spec fn resolve_inner_spec(
    bodies: Seq<Body>,
    colliders: Seq<Collider>,
    i: int,
    j: int,
) -> Seq<Body>
    decreases j,
{
    if j <= 0 {
        bodies
    } else {
        resolve_pair_spec(resolve_inner_spec(bodies, colliders, i, j - 1), colliders, i, j - 1)
    }
}

/// The resolution sweep for the first `i` colliders.
pub open spec fn resolve_outer_spec(bodies: Seq<Body>, colliders: Seq<Collider>, i: int) -> Seq<
    Body,
>
    decreases i,
{
    if i <= 0 {
        bodies
    } else {
        resolve_inner_spec(
            resolve_outer_spec(bodies, colliders, i - 1),
            colliders,
            i - 1,
            colliders.len() as int,
        )
    }
}

/// One whole fixed step: gravity integration on every dynamic body, then
/// the full contact-resolution sweep.
pub open spec fn step_bodies_spec(bodies: Seq<Body>, colliders: Seq<Collider>) -> Seq<Body> {
    resolve_outer_spec(integrate_all_spec(bodies), colliders, colliders.len() as int)
}

impl Physics2D {
    /// Advance the simulation by exactly one fixed timestep (1/60 s):
    /// every dynamic body first gains one step of the constant downward
    /// gravity and moves by its velocity, then interpenetrations of
    /// dynamic bodies with static boxes are resolved in handle order.
    /// Calling this is the only way simulated time advances.
    pub fn step(&mut self)
        requires
            old(self).wf(),
        ensures
            final(self).wf(),
            final(self).bodies@ == step_bodies_spec(old(self).bodies@, old(self).colliders@),
            final(self).colliders == old(self).colliders,
            final(self).gravity == old(self).gravity,
            final(self).ticks == old(self).ticks,
    {
        let ghost orig = self.bodies@;
        let ghost cols = self.colliders@;
        let n = self.bodies.len();
        let mut idx: usize = 0;
        while idx < n
            invariant
                n == orig.len(),
                idx <= n,
                self.bodies@.len() == orig.len(),
                self.colliders == old(self).colliders,
                self.gravity == old(self).gravity,
                self.ticks == old(self).ticks,
                forall|k: int| 0 <= k < orig.len() ==> body_ok(#[trigger] orig[k]),
                forall|k: int|
                    0 <= k < idx ==> self.bodies@[k] == integrate_body_spec(#[trigger] orig[k]),
                forall|k: int| idx <= k < n ==> self.bodies@[k] == #[trigger] orig[k],
                forall|k: int| 0 <= k < n ==> body_ok(#[trigger] self.bodies@[k]),
            decreases n - idx,
        {
            let b = self.bodies[idx];
            if b.kind == BodyKind::Dynamic {
                let vy = util::clamp(b.velocity.y + GRAVITY_STEP);
                let px = util::clamp(b.position.x + util::div_by_step_rate(b.velocity.x));
                let py = util::clamp(b.position.y + util::div_by_step_rate(vy));
                let nb = Body {
                    position: Vec2 { x: px, y: py },
                    velocity: Vec2 { x: b.velocity.x, y: vy },
                    ..b
                };
                self.bodies.set(idx, nb);
            }
            idx += 1;
        }
        proof {
            assert(self.bodies@ =~= integrate_all_spec(orig));
        }
        let ghost integ = self.bodies@;
        let m = self.colliders.len();
        let mut i: usize = 0;
        while i < m
            invariant
                m == cols.len(),
                i <= m,
                cols == old(self).colliders@,
                self.colliders == old(self).colliders,
                self.gravity == old(self).gravity,
                self.ticks == old(self).ticks,
                old(self).wf(),
                self.bodies@.len() == integ.len(),
                integ.len() == old(self).bodies@.len(),
                self.bodies@ == resolve_outer_spec(integ, cols, i as int),
                forall|k: int| 0 <= k < self.bodies@.len() ==> body_ok(#[trigger] self.bodies@[k]),
            decreases m - i,
        {
            let ghost outer_i = self.bodies@;
            let mut j: usize = 0;
            while j < m
                invariant
                    m == cols.len(),
                    i < m,
                    j <= m,
                    cols == old(self).colliders@,
                    self.colliders == old(self).colliders,
                    self.gravity == old(self).gravity,
                    self.ticks == old(self).ticks,
                    old(self).wf(),
                    self.bodies@.len() == integ.len(),
                    integ.len() == old(self).bodies@.len(),
                    outer_i == resolve_outer_spec(integ, cols, i as int),
                    self.bodies@ == resolve_inner_spec(outer_i, cols, i as int, j as int),
                    forall|k: int|
                        0 <= k < self.bodies@.len() ==> body_ok(#[trigger] self.bodies@[k]),
                decreases m - j,
            {
                let ghost before = self.bodies@;
                let ci = self.colliders[i];
                let cj = self.colliders[j];
                let bd = self.bodies[ci.body.index];
                let bs = self.bodies[cj.body.index];
                if bd.kind == BodyKind::Dynamic && bs.kind == BodyKind::Static {
                    let dcx = bd.position.x + ci.offset.x;
                    let dcy = bd.position.y + ci.offset.y;
                    let scx = bs.position.x + cj.offset.x;
                    let scy = bs.position.y + cj.offset.y;
                    let adx = if dcx >= scx {
                        dcx - scx
                    } else {
                        scx - dcx
                    };
                    let ady = if dcy >= scy {
                        dcy - scy
                    } else {
                        scy - dcy
                    };
                    if adx <= ci.half_extents.x + cj.half_extents.x && ady <= ci.half_extents.y
                        + cj.half_extents.y {
                        let pen_x = ci.half_extents.x + cj.half_extents.x - adx;
                        let pen_y = ci.half_extents.y + cj.half_extents.y - ady;
                        let nb: Body;
                        if pen_y <= pen_x {
                            let above = dcy - scy <= 0;
                            let py = util::clamp(
                                if above {
                                    bd.position.y - pen_y
                                } else {
                                    bd.position.y + pen_y
                                },
                            );
                            let vy = if above {
                                if bd.velocity.y > 0 {
                                    0
                                } else {
                                    bd.velocity.y
                                }
                            } else {
                                if bd.velocity.y < 0 {
                                    0
                                } else {
                                    bd.velocity.y
                                }
                            };
                            nb = Body {
                                position: Vec2 { x: bd.position.x, y: py },
                                velocity: Vec2 { x: bd.velocity.x, y: vy },
                                ..bd
                            };
                        } else {
                            let left = dcx - scx <= 0;
                            let px = util::clamp(
                                if left {
                                    bd.position.x - pen_x
                                } else {
                                    bd.position.x + pen_x
                                },
                            );
                            let vx = if left {
                                if bd.velocity.x > 0 {
                                    0
                                } else {
                                    bd.velocity.x
                                }
                            } else {
                                if bd.velocity.x < 0 {
                                    0
                                } else {
                                    bd.velocity.x
                                }
                            };
                            nb = Body {
                                position: Vec2 { x: px, y: bd.position.y },
                                velocity: Vec2 { x: vx, y: bd.velocity.y },
                                ..bd
                            };
                        }
                        self.bodies.set(ci.body.index, nb);
                    }
                }
                proof {
                    assert(self.bodies@ =~= resolve_pair_spec(before, cols, i as int, j as int));
                }
                j += 1;
            }
            i += 1;
        }
    }
}

/// Whether any collider is attached to body `k`.
pub open spec fn body_has_collider(colliders: Seq<Collider>, k: int) -> bool {
    exists|c: int| 0 <= c < colliders.len() && (#[trigger] colliders[c]).body.index == k
}

/// Well-formedness of raw arenas, as `Physics2D::wf` states it.
pub open spec fn arenas_ok(bodies: Seq<Body>, colliders: Seq<Collider>) -> bool {
    &&& forall|k: int| 0 <= k < bodies.len() ==> body_ok(#[trigger] bodies[k])
    &&& forall|k: int|
        0 <= k < colliders.len() ==> collider_ok(#[trigger] colliders[k], bodies.len() as int)
}

/// `n` whole fixed steps.
pub open spec fn step_bodies_n_spec(bodies: Seq<Body>, colliders: Seq<Collider>, n: nat) -> Seq<
    Body,
>
    decreases n,
{
    if n == 0 {
        bodies
    } else {
        step_bodies_spec(step_bodies_n_spec(bodies, colliders, (n - 1) as nat), colliders)
    }
}

/// One resolution pair keeps the arena length and every body's kind and
/// mass, leaves static bodies and collider-less bodies untouched, and
/// keeps every body inside the simulation domain.
proof fn lemma_resolve_pair_preserves(bodies: Seq<Body>, colliders: Seq<Collider>, i: int, j: int)
    requires
        arenas_ok(bodies, colliders),
        0 <= i < colliders.len(),
        0 <= j < colliders.len(),
    ensures
        resolve_pair_spec(bodies, colliders, i, j).len() == bodies.len(),
        arenas_ok(resolve_pair_spec(bodies, colliders, i, j), colliders),
        forall|k: int|
            0 <= k < bodies.len() ==> (#[trigger] resolve_pair_spec(bodies, colliders, i, j)[k]).kind
                == bodies[k].kind && resolve_pair_spec(bodies, colliders, i, j)[k].mass
                == bodies[k].mass,
        forall|k: int|
            0 <= k < bodies.len() && bodies[k].kind == BodyKind::Static ==> resolve_pair_spec(
                bodies,
                colliders,
                i,
                j,
            )[k] == bodies[k],
        forall|k: int|
            0 <= k < bodies.len() && !body_has_collider(colliders, k) ==> resolve_pair_spec(
                bodies,
                colliders,
                i,
                j,
            )[k] == bodies[k],
{
    let r = resolve_pair_spec(bodies, colliders, i, j);
    let bi = colliders[i].body.index as int;
    if bodies[bi].kind == BodyKind::Dynamic && bodies[colliders[j].body.index as int].kind
        == BodyKind::Static && seq_touching(bodies, colliders, i, j) {
        assert(collider_ok(colliders[i], bodies.len() as int));
        assert(body_has_collider(colliders, bi));
        assert(body_ok(r[bi]));
    }
}

/// The inner resolution sweep enjoys the same preservation properties.
proof fn lemma_resolve_inner_preserves(bodies: Seq<Body>, colliders: Seq<Collider>, i: int, j: int)
    requires
        arenas_ok(bodies, colliders),
        0 <= i < colliders.len(),
        0 <= j <= colliders.len(),
    ensures
        resolve_inner_spec(bodies, colliders, i, j).len() == bodies.len(),
        arenas_ok(resolve_inner_spec(bodies, colliders, i, j), colliders),
        forall|k: int|
            0 <= k < bodies.len() ==> (#[trigger] resolve_inner_spec(bodies, colliders, i, j)[k]).kind
                == bodies[k].kind && resolve_inner_spec(bodies, colliders, i, j)[k].mass
                == bodies[k].mass,
        forall|k: int|
            0 <= k < bodies.len() && !body_has_collider(colliders, k) ==> resolve_inner_spec(
                bodies,
                colliders,
                i,
                j,
            )[k] == bodies[k],
        forall|k: int|
            0 <= k < bodies.len() && bodies[k].kind == BodyKind::Static ==> resolve_inner_spec(
                bodies,
                colliders,
                i,
                j,
            )[k] == bodies[k],
    decreases j,
{
    if j > 0 {
        lemma_resolve_inner_preserves(bodies, colliders, i, j - 1);
        lemma_resolve_pair_preserves(resolve_inner_spec(bodies, colliders, i, j - 1), colliders, i, j - 1);
    }
}

/// The outer resolution sweep enjoys the same preservation properties.
proof fn lemma_resolve_outer_preserves(bodies: Seq<Body>, colliders: Seq<Collider>, i: int)
    requires
        arenas_ok(bodies, colliders),
        0 <= i <= colliders.len(),
    ensures
        resolve_outer_spec(bodies, colliders, i).len() == bodies.len(),
        arenas_ok(resolve_outer_spec(bodies, colliders, i), colliders),
        forall|k: int|
            0 <= k < bodies.len() ==> (#[trigger] resolve_outer_spec(bodies, colliders, i)[k]).kind
                == bodies[k].kind && resolve_outer_spec(bodies, colliders, i)[k].mass
                == bodies[k].mass,
        forall|k: int|
            0 <= k < bodies.len() && !body_has_collider(colliders, k) ==> resolve_outer_spec(
                bodies,
                colliders,
                i,
            )[k] == bodies[k],
        forall|k: int|
            0 <= k < bodies.len() && bodies[k].kind == BodyKind::Static ==> resolve_outer_spec(
                bodies,
                colliders,
                i,
            )[k] == bodies[k],
    decreases i,
{
    if i > 0 {
        lemma_resolve_outer_preserves(bodies, colliders, i - 1);
        lemma_resolve_inner_preserves(
            resolve_outer_spec(bodies, colliders, i - 1),
            colliders,
            i - 1,
            colliders.len() as int,
        );
    }
}

/// One whole step keeps the arena length, every kind and mass, and the
/// simulation-domain bounds; a dynamic body with no collider is exactly
/// gravity-integrated.
pub proof fn lemma_step_bodies_preserves(bodies: Seq<Body>, colliders: Seq<Collider>)
    requires
        arenas_ok(bodies, colliders),
    ensures
        step_bodies_spec(bodies, colliders).len() == bodies.len(),
        arenas_ok(step_bodies_spec(bodies, colliders), colliders),
        forall|k: int|
            0 <= k < bodies.len() ==> (#[trigger] step_bodies_spec(bodies, colliders)[k]).kind
                == bodies[k].kind && step_bodies_spec(bodies, colliders)[k].mass == bodies[k].mass,
        forall|k: int|
            0 <= k < bodies.len() && !body_has_collider(colliders, k) ==> step_bodies_spec(
                bodies,
                colliders,
            )[k] == integrate_body_spec(bodies[k]),
{
    let integ = integrate_all_spec(bodies);
    assert forall|k: int| 0 <= k < integ.len() implies body_ok(#[trigger] integ[k]) by {
        assert(body_ok(bodies[k]));
    }
    assert(arenas_ok(integ, colliders));
    lemma_resolve_outer_preserves(integ, colliders, colliders.len() as int);
    assert forall|k: int| 0 <= k < bodies.len() implies (#[trigger] step_bodies_spec(
        bodies,
        colliders,
    )[k]).kind == bodies[k].kind && step_bodies_spec(bodies, colliders)[k].mass
        == bodies[k].mass by {
        assert(integ[k] == integrate_body_spec(bodies[k]));
    }
}

/// Body `k`'s colliders touch no static collider in the given arenas.
pub open spec fn body_contact_free(bodies: Seq<Body>, colliders: Seq<Collider>, k: int) -> bool {
    forall|a: int, b: int|
        0 <= a < colliders.len() && 0 <= b < colliders.len() && (#[trigger] colliders[a]).body.index
            == k && bodies[(#[trigger] colliders[b]).body.index as int].kind == BodyKind::Static
            ==> !seq_touching(bodies, colliders, a, b)
}

/// The inner resolution sweep never moves a contact-free dynamic body,
/// and leaves it contact-free.
proof fn lemma_resolve_inner_contact_free(
    bodies: Seq<Body>,
    colliders: Seq<Collider>,
    k: int,
    i: int,
    j: int,
)
    requires
        arenas_ok(bodies, colliders),
        0 <= i < colliders.len(),
        0 <= j <= colliders.len(),
        0 <= k < bodies.len(),
        body_contact_free(bodies, colliders, k),
    ensures
        resolve_inner_spec(bodies, colliders, i, j)[k] == bodies[k],
        body_contact_free(resolve_inner_spec(bodies, colliders, i, j), colliders, k),
    decreases j,
{
    if j > 0 {
        lemma_resolve_inner_contact_free(bodies, colliders, k, i, j - 1);
        lemma_resolve_inner_preserves(bodies, colliders, i, j - 1);
        let cur = resolve_inner_spec(bodies, colliders, i, j - 1);
        lemma_resolve_pair_preserves(cur, colliders, i, j - 1);
        let r = resolve_pair_spec(cur, colliders, i, j - 1);
        let bi = colliders[i].body.index as int;
        if cur[bi].kind == BodyKind::Dynamic && cur[colliders[j - 1].body.index as int].kind
            == BodyKind::Static && seq_touching(cur, colliders, i, j - 1) {
            assert(bi != k);
        }
        assert(r[k] == cur[k]);
        assert forall|a: int, b: int|
            0 <= a < colliders.len() && 0 <= b < colliders.len() && (#[trigger] colliders[a]).body.index
                == k && r[(#[trigger] colliders[b]).body.index as int].kind
                == BodyKind::Static implies !seq_touching(r, colliders, a, b) by {
            let sb = colliders[b].body.index as int;
            assert(cur[sb].kind == BodyKind::Static);
            assert(r[sb] == cur[sb]);
            assert(!seq_touching(cur, colliders, a, b));
            assert(seq_center_x(r, colliders, a) == seq_center_x(cur, colliders, a));
            assert(seq_center_y(r, colliders, a) == seq_center_y(cur, colliders, a));
            assert(seq_center_x(r, colliders, b) == seq_center_x(cur, colliders, b));
            assert(seq_center_y(r, colliders, b) == seq_center_y(cur, colliders, b));
        }
    }
}

/// The outer resolution sweep never moves a contact-free dynamic body,
/// and leaves it contact-free.
proof fn lemma_resolve_outer_contact_free(
    bodies: Seq<Body>,
    colliders: Seq<Collider>,
    k: int,
    i: int,
)
    requires
        arenas_ok(bodies, colliders),
        0 <= i <= colliders.len(),
        0 <= k < bodies.len(),
        body_contact_free(bodies, colliders, k),
    ensures
        resolve_outer_spec(bodies, colliders, i)[k] == bodies[k],
        body_contact_free(resolve_outer_spec(bodies, colliders, i), colliders, k),
    decreases i,
{
    if i > 0 {
        lemma_resolve_outer_contact_free(bodies, colliders, k, i - 1);
        lemma_resolve_outer_preserves(bodies, colliders, i - 1);
        lemma_resolve_inner_contact_free(
            resolve_outer_spec(bodies, colliders, i - 1),
            colliders,
            k,
            i - 1,
            colliders.len() as int,
        );
    }
}

/// One whole step on a body without contacts is pure gravity integration:
/// a dynamic body whose colliders touch no static collider after the
/// integration comes out of the step exactly gravity-integrated — the
/// resolution sweep never touches it.
pub proof fn lemma_step_contact_free_body(bodies: Seq<Body>, colliders: Seq<Collider>, k: int)
    requires
        arenas_ok(bodies, colliders),
        0 <= k < bodies.len(),
        body_contact_free(integrate_all_spec(bodies), colliders, k),
    ensures
        step_bodies_spec(bodies, colliders)[k] == integrate_body_spec(bodies[k]),
{
    let integ = integrate_all_spec(bodies);
    assert forall|m: int| 0 <= m < integ.len() implies body_ok(#[trigger] integ[m]) by {
        assert(body_ok(bodies[m]));
    }
    assert(arenas_ok(integ, colliders));
    lemma_resolve_outer_contact_free(integ, colliders, k, colliders.len() as int);
    assert(integ[k] == integrate_body_spec(bodies[k]));
}

/// Fixed-timestep gravity integration (the first testable property of the
/// simulator): `n` calls of `step` advance a dynamic body that no collider
/// is attached to — so it can never be in contact — by exactly
/// `n * GRAVITY_STEP` of downward velocity, that is `n` times 1/60 s of
/// the constant gravity, with its horizontal velocity untouched,
/// independent of any wall-clock timing.
pub proof fn lemma_fixed_step_gravity(
    bodies: Seq<Body>,
    colliders: Seq<Collider>,
    k: int,
    n: nat,
)
    requires
        arenas_ok(bodies, colliders),
        0 <= k < bodies.len(),
        bodies[k].kind == BodyKind::Dynamic,
        !body_has_collider(colliders, k),
        bodies[k].velocity.y + n * GRAVITY_STEP <= COORD_LIMIT,
    ensures
        step_bodies_n_spec(bodies, colliders, n).len() == bodies.len(),
        step_bodies_n_spec(bodies, colliders, n)[k].velocity.y == bodies[k].velocity.y + n
            * GRAVITY_STEP,
        step_bodies_n_spec(bodies, colliders, n)[k].velocity.x == bodies[k].velocity.x,
        step_bodies_n_spec(bodies, colliders, n)[k].kind == BodyKind::Dynamic,
    decreases n,
{
    if n > 0 {
        lemma_fixed_step_gravity(bodies, colliders, k, (n - 1) as nat);
        let prev = step_bodies_n_spec(bodies, colliders, (n - 1) as nat);
        lemma_step_bodies_n_preserves(bodies, colliders, (n - 1) as nat);
        lemma_step_bodies_preserves(prev, colliders);
        assert(body_ok(prev[k]));
        assert(step_bodies_n_spec(bodies, colliders, n)[k] == integrate_body_spec(prev[k]));
    }
}

/// `n` whole steps keep the arena length and the simulation-domain bounds.
pub proof fn lemma_step_bodies_n_preserves(bodies: Seq<Body>, colliders: Seq<Collider>, n: nat)
    requires
        arenas_ok(bodies, colliders),
    ensures
        step_bodies_n_spec(bodies, colliders, n).len() == bodies.len(),
        arenas_ok(step_bodies_n_spec(bodies, colliders, n), colliders),
        forall|k: int|
            0 <= k < bodies.len() ==> (#[trigger] step_bodies_n_spec(bodies, colliders, n)[k]).kind
                == bodies[k].kind,
    decreases n,
{
    if n > 0 {
        lemma_step_bodies_n_preserves(bodies, colliders, (n - 1) as nat);
        lemma_step_bodies_preserves(step_bodies_n_spec(bodies, colliders, (n - 1) as nat), colliders);
    }
}

/// The simulator's gravity step preserves vertical-velocity ordering:
/// both of two runs gain the same increment, and the domain clamp is
/// monotone. Together with the controller-side shaping monotonicity this
/// carries a velocity gap across whole ticks.
pub proof fn lemma_gravity_step_monotone(vr: int, vh: int)
    requires
        vr >= vh,
    ensures
        util::clamp_spec(vr + GRAVITY_STEP) >= util::clamp_spec(vh + GRAVITY_STEP),
{
}

/// Ground classification is symmetric in query order: the contact of a
/// touching pair has the same manifold geometry whichever collider is
/// queried, and the tag pair merely swaps.
pub proof fn lemma_collisions_symmetric(w: Physics2D, a: int, b: int)
    requires
        0 <= a < w.colliders@.len(),
        0 <= b < w.colliders@.len(),
    ensures
        touching_spec(w, a, b) == touching_spec(w, b, a),
        contact_point_spec(w, a, b) == contact_point_spec(w, b, a),
        pen_x_spec(w, a, b) == pen_x_spec(w, b, a),
        pen_y_spec(w, a, b) == pen_y_spec(w, b, a),
{
    assert(util::abs_spec(center_x(w, a) - center_x(w, b)) == util::abs_spec(
        center_x(w, b) - center_x(w, a),
    ));
    assert(util::abs_spec(center_y(w, a) - center_y(w, b)) == util::abs_spec(
        center_y(w, b) - center_y(w, a),
    ));
}

/// The ground classifier, characterized over the entries of the
/// `collisions` query: it holds exactly when some entry pairs the queried
/// collider with a `Platform`-tagged one whose manifold contains a point
/// with a near-zero horizontal normal component; a contact whose normal
/// X component rounds to 1 or -1 (a side collision) never qualifies.
pub proof fn lemma_ground_check_characterization(w: Physics2D, h: int)
    requires
        0 <= h < w.colliders@.len(),
    ensures
        ground_check_spec(w, h) <==> exists|i: int|
            {
                &&& 0 <= i < collision_partners(w, h, w.colliders@.len() as int).len()
                &&& w.colliders@[#[trigger] collision_partners(
                    w,
                    h,
                    w.colliders@.len() as int,
                )[i]].tag == ObjectType::Platform
                &&& rounds_to_zero(
                    contact_point_spec(
                        w,
                        h,
                        collision_partners(w, h, w.colliders@.len() as int)[i],
                    ).normal.x as int,
                )
            },
{
    let n = w.colliders@.len() as int;
    lemma_collision_partners_props(w, h, n);
    if ground_check_spec(w, h) {
        let k = choose|k: int|
            0 <= k < w.colliders@.len() && k != h && #[trigger] touching_spec(w, h, k)
                && w.colliders@[k].tag == ObjectType::Platform && rounds_to_zero(
                contact_point_spec(w, h, k).normal.x as int,
            );
        assert(collision_partners(w, h, n).contains(k));
        let i = choose|i: int|
            0 <= i < collision_partners(w, h, n).len() && collision_partners(w, h, n)[i] == k;
        assert(0 <= i < collision_partners(w, h, n).len() && w.colliders@[collision_partners(
            w,
            h,
            n,
        )[i]].tag == ObjectType::Platform && rounds_to_zero(
            contact_point_spec(w, h, collision_partners(w, h, n)[i]).normal.x as int,
        ));
    }
    if exists|i: int|
        {
            &&& 0 <= i < collision_partners(w, h, n).len()
            &&& w.colliders@[#[trigger] collision_partners(w, h, n)[i]].tag == ObjectType::Platform
            &&& rounds_to_zero(
                contact_point_spec(w, h, collision_partners(w, h, n)[i]).normal.x as int,
            )
        } {
        let i = choose|i: int|
            {
                &&& 0 <= i < collision_partners(w, h, n).len()
                &&& w.colliders@[#[trigger] collision_partners(w, h, n)[i]].tag
                    == ObjectType::Platform
                &&& rounds_to_zero(
                    contact_point_spec(w, h, collision_partners(w, h, n)[i]).normal.x as int,
                )
            };
        let k = collision_partners(w, h, n)[i];
        assert(touching_spec(w, h, k));
        assert(ground_check_spec(w, h));
    }
}

/// Two worlds with the same colliders and the same body positions agree
/// on every contact query: contacts depend on geometry, never on
/// velocities.
pub proof fn lemma_ground_check_same_geometry(w1: Physics2D, w2: Physics2D, h: int)
    requires
        w1.colliders@ == w2.colliders@,
        w1.bodies@.len() == w2.bodies@.len(),
        0 <= h < w1.colliders@.len(),
        forall|k: int|
            0 <= k < w1.bodies@.len() ==> (#[trigger] w1.bodies@[k]).position
                == w2.bodies@[k].position,
        forall|k: int|
            0 <= k < w1.colliders@.len() ==> collider_ok(
                #[trigger] w1.colliders@[k],
                w1.bodies@.len() as int,
            ),
    ensures
        ground_check_spec(w1, h) == ground_check_spec(w2, h),
{
    assert forall|k: int| 0 <= k < w1.colliders@.len() implies center_x(w1, k) == center_x(w2, k)
        && center_y(w1, k) == center_y(w2, k) by {
        let b = w1.colliders@[k].body.index as int;
        assert(collider_ok(w1.colliders@[k], w1.bodies@.len() as int));
        assert(w1.bodies@[b].position == w2.bodies@[b].position);
    }
    assert forall|k: int| 0 <= k < w1.colliders@.len() implies touching_spec(w1, h, k)
        == touching_spec(w2, h, k) && contact_point_spec(w1, h, k) == contact_point_spec(
        w2,
        h,
        k,
    ) by {
        assert(center_x(w1, k) == center_x(w2, k) && center_y(w1, k) == center_y(w2, k));
        assert(center_x(w1, h) == center_x(w2, h) && center_y(w1, h) == center_y(w2, h));
    }
    if ground_check_spec(w1, h) {
        let k = choose|k: int|
            0 <= k < w1.colliders@.len() && k != h && #[trigger] touching_spec(w1, h, k)
                && w1.colliders@[k].tag == ObjectType::Platform && rounds_to_zero(
                contact_point_spec(w1, h, k).normal.x as int,
            );
        assert(touching_spec(w2, h, k));
        assert(ground_check_spec(w2, h));
    }
    if ground_check_spec(w2, h) {
        let k = choose|k: int|
            0 <= k < w2.colliders@.len() && k != h && #[trigger] touching_spec(w2, h, k)
                && w2.colliders@[k].tag == ObjectType::Platform && rounds_to_zero(
                contact_point_spec(w2, h, k).normal.x as int,
            );
        assert(touching_spec(w1, h, k));
        assert(ground_check_spec(w1, h));
    }
}

} // verus!
