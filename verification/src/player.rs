//! The platformer movement controller: a dynamic body plus collider, input
//! flags, and the per-tick velocity policy — instant horizontal speed
//! capped by a maximum, one jump impulse, and asymmetric extra gravity for
//! variable jump height.

use vstd::prelude::*;

use crate::physics::{
    ground_check_spec, lemma_ground_check_same_geometry, Body, BodyHandle, BodyKind, Collider,
    ColliderDesc, ColliderHandle, ObjectType, Physics2D, RigidBodyDesc, GRAVITY,
};
use crate::util;
use crate::util::{Vec2, COORD_LIMIT, SCALE};
use crate::world::World;

verus! {

/// Horizontal speed cap on the ground: 100 units per second.
pub const MAX_VEL: i64 = 100_000_000;

/// How much the cap shrinks while airborne: reduced air control.
pub const AIR_VEL_PENALTY: i64 = 20_000_000;

/// Extra-gravity multiplier while falling: 12.5, in fixed point.
pub const FALL_MULTIPLIER: i64 = 12_500_000;

/// Extra-gravity multiplier while rising with the jump key released: 12.
pub const LOW_JUMP_MULTIPLIER: i64 = 12_000_000;

/// Upward impulse of a jump: 20 units per second.
pub const JUMP_POWER: i64 = 20_000_000;

/// Vertical speeds below this (0.3 units per second, so every rising
/// speed) get the low-jump shaping when the jump key is not held.
pub const LOW_JUMP_THRESHOLD: i64 = 300_000;

/// Largest wall-clock frame delta the controller accepts: ten seconds.
pub const DT_LIMIT: i64 = 10_000_000;

/// Half-extent of the player's square collider: 10 units.
pub const PLAYER_HALF_EXTENT: i64 = 10_000_000;

/// The player's mass: 10.2 units.
pub const PLAYER_MASS: i64 = 10_200_000;

/// Level-triggered input state: held movement keys plus the jump key,
/// which is set only on a fresh press.
#[derive(PartialEq, Eq, Structural, Debug, Clone, Copy)]
pub struct PlayerInput {
    pub left: bool,
    pub right: bool,
    pub jump: bool,
}

/// The player pawn: handles into the physics world, cached kinematics,
/// input flags, the jump-used latch, and two ticks of ground history used
/// as a coyote-time buffer.
#[derive(Debug, Clone, Copy)]
pub struct Player {
    pub input: PlayerInput,
    pub position: Vec2,
    pub velocity: Vec2,
    pub body_handle: BodyHandle,
    pub collider_handle: ColliderHandle,
    pub has_jumped: bool,
    pub last_on_ground: (bool, bool),
}

/// Horizontal input direction: right minus left, as a signed unit.
pub open spec fn input_direction(input: PlayerInput) -> int {
    (if input.right {
        1int
    } else {
        0int
    }) - (if input.left {
        1int
    } else {
        0int
    })
}

/// Speed cap for this tick: the nominal cap when recently grounded, the
/// reduced one when airborne.
pub open spec fn max_speed(grounded: bool) -> int {
    if grounded {
        MAX_VEL as int
    } else {
        MAX_VEL - AIR_VEL_PENALTY
    }
}

/// Whether the recent-ground buffer counts as grounded: either of the two
/// stored history ticks.
pub open spec fn grounded_buffer(p: Player) -> bool {
    p.last_on_ground.0 || p.last_on_ground.1
}

/// Whether this tick's jump fires: the jump key is pressed and the player
/// either was grounded within the buffered ticks or has never jumped yet.
pub open spec fn jump_triggered(p: Player) -> bool {
    (grounded_buffer(p) || !p.has_jumped) && p.input.jump
}

/// Extra acceleration of the gravity shaping over one frame delta:
/// gravity times (multiplier - 1) times dt, in fixed point.
pub open spec fn shaping_delta(gravity: int, multiplier: int, dt: int) -> int {
    gravity * (multiplier - SCALE) / (SCALE as int) * dt / (SCALE as int)
}

/// Vertical velocity after the variable-jump-height shaping: extra fall
/// acceleration when already moving down, extra acceleration to cut the
/// jump short when rising with the key released, otherwise untouched.
pub open spec fn shaped_vertical(vy: int, jump_held: bool, gravity: int, dt: int) -> int {
    if vy > 0 {
        util::clamp_spec(vy + shaping_delta(gravity, FALL_MULTIPLIER as int, dt))
    } else if vy < LOW_JUMP_THRESHOLD && !jump_held {
        util::clamp_spec(vy + shaping_delta(gravity, LOW_JUMP_MULTIPLIER as int, dt))
    } else {
        vy
    }
}

/// The whole velocity policy of one controller tick, given the body's
/// velocity read back from the simulator: horizontal velocity is replaced
/// by input direction times the cap (prior horizontal momentum is
/// discarded); a fired jump re-zeroes the horizontal component and adds
/// the upward impulse; the vertical component then gets the shaping.
pub open spec fn controller_velocity(v0: Vec2, p: Player, gravity: int, dt: int) -> Vec2 {
    if jump_triggered(p) {
        Vec2 {
            x: 0,
            y: shaped_vertical(
                util::clamp_spec(v0.y - JUMP_POWER),
                p.input.jump,
                gravity,
                dt,
            ) as i64,
        }
    } else {
        Vec2 {
            x: (input_direction(p.input) * max_speed(grounded_buffer(p))) as i64,
            y: shaped_vertical(v0.y as int, p.input.jump, gravity, dt) as i64,
        }
    }
}

/// Horizontal velocity is fully input-driven each tick: with no movement
/// key held, one controller tick leaves the horizontal velocity exactly 0,
/// whatever it was before (a fired jump also re-zeroes it).
pub proof fn lemma_zero_input_zeroes_horizontal(v0: Vec2, p: Player, gravity: int, dt: int)
    requires
        !p.input.left,
        !p.input.right,
    ensures
        controller_velocity(v0, p, gravity, dt).x == 0,
{
}

/// Jump availability, the airborne side: once the jump latch is set, a
/// tick with no buffered ground contact never fires a jump.
pub proof fn lemma_airborne_jump_needs_ground(p: Player)
    requires
        p.has_jumped,
        !p.last_on_ground.0,
        !p.last_on_ground.1,
    ensures
        !jump_triggered(p),
{
}

/// Jump availability: a player whose jump latch is clear can jump while
/// fully airborne exactly once. The pressed tick fires; and since the
/// update latches `has_jumped` to the trigger, any later tick that is
/// still without buffered ground contact cannot fire again.
pub proof fn lemma_airborne_jump_only_once(p: Player, q: Player)
    requires
        !p.last_on_ground.0,
        !p.last_on_ground.1,
        !p.has_jumped,
        p.input.jump,
        q.has_jumped == (p.has_jumped || jump_triggered(p)),
        !q.last_on_ground.0,
        !q.last_on_ground.1,
    ensures
        jump_triggered(p),
        !jump_triggered(q),
{
}

/// Variable jump height, the releasing tick: while rising (vertical
/// velocity at or below zero) with the jump latch set and no buffered
/// ground contact, a tick with the jump key released leaves the vertical
/// velocity strictly larger — a strictly shorter rise — than the same
/// tick with the key held, once the frame delta is long enough for the
/// shaping to move at least one micro-unit.
pub proof fn lemma_low_jump_cuts_rise(
    v0: Vec2,
    held: Player,
    released: Player,
    gravity: int,
    dt: int,
)
    requires
        held.has_jumped,
        released.has_jumped,
        !held.last_on_ground.0,
        !held.last_on_ground.1,
        !released.last_on_ground.0,
        !released.last_on_ground.1,
        held.input.jump,
        !released.input.jump,
        -COORD_LIMIT <= v0.y <= 0,
        gravity == GRAVITY,
        0 <= dt <= DT_LIMIT,
        shaping_delta(gravity, LOW_JUMP_MULTIPLIER as int, dt) >= 1,
    ensures
        controller_velocity(v0, released, gravity, dt).y > controller_velocity(
            v0,
            held,
            gravity,
            dt,
        ).y,
{
    assert(gravity * (LOW_JUMP_MULTIPLIER - SCALE) / (SCALE as int) == 107_910_000);
    assert(107_910_000 * dt <= 107_910_000 * (DT_LIMIT as int));
    vstd::arithmetic::div_mod::lemma_div_is_ordered(
        107_910_000 * dt,
        107_910_000 * (DT_LIMIT as int),
        SCALE as int,
    );
    assert(shaping_delta(gravity, LOW_JUMP_MULTIPLIER as int, dt) <= 107_910_000 * (DT_LIMIT as int)
        / (SCALE as int));
}

/// Variable jump height, the later ticks: the shaping never lets the
/// held-key run fall faster — if the released-key run's vertical velocity
/// is already at least as large (further from rising), one more shaping
/// with the same key states keeps it at least as large. Together with the
/// releasing tick this gives the strict decrease of rise over any number
/// of ticks.
pub proof fn lemma_shaping_monotone(vr: int, vh: int, gravity: int, dt: int)
    requires
        vr >= vh,
        -COORD_LIMIT <= vh,
        vr <= COORD_LIMIT,
        gravity == GRAVITY,
        0 <= dt <= DT_LIMIT,
    ensures
        shaped_vertical(vr, false, gravity, dt) >= shaped_vertical(vh, true, gravity, dt),
{
    assert(gravity * (FALL_MULTIPLIER - SCALE) / (SCALE as int) == 112_815_000);
    assert(gravity * (LOW_JUMP_MULTIPLIER - SCALE) / (SCALE as int) == 107_910_000);
    assert(shaping_delta(gravity, FALL_MULTIPLIER as int, dt) >= 0);
    assert(shaping_delta(gravity, LOW_JUMP_MULTIPLIER as int, dt) >= 0);
}

impl Player {
    /// The player's handles really denote a dynamic body of this world,
    /// with its collider attached to that body.
    pub open spec fn valid_in(&self, w: Physics2D) -> bool {
        &&& w.dynamic_body_valid(self.body_handle)
        &&& self.collider_handle.index < w.colliders@.len()
        &&& w.colliders@[self.collider_handle.index as int].body == self.body_handle
    }

    /// Create the player pawn: a dynamic body of mass 10.2 at the origin
    /// with a square collider of half-extent 10 tagged `Player`, no input,
    /// the jump unused, and the ground buffer primed as grounded.
    pub fn new(world: &mut World) -> (r: Player)
        requires
            old(world).physics.wf(),
        ensures
            final(world).physics.wf(),
            r.valid_in(final(world).physics),
            final(world).physics.bodies@ == old(world).physics.bodies@.push(
                Body {
                    kind: BodyKind::Dynamic,
                    position: Vec2 { x: 0, y: 0 },
                    velocity: Vec2 { x: 0, y: 0 },
                    mass: PLAYER_MASS,
                },
            ),
            final(world).physics.colliders@ == old(world).physics.colliders@.push(
                Collider {
                    body: BodyHandle { index: old(world).physics.bodies@.len() as usize },
                    half_extents: Vec2 { x: PLAYER_HALF_EXTENT, y: PLAYER_HALF_EXTENT },
                    offset: Vec2 { x: 0, y: 0 },
                    tag: ObjectType::Player,
                },
            ),
            final(world).physics.gravity == old(world).physics.gravity,
            final(world).physics.ticks == old(world).physics.ticks,
            r.body_handle.index == old(world).physics.bodies@.len(),
            r.collider_handle.index == old(world).physics.colliders@.len(),
            r.input == (PlayerInput { left: false, right: false, jump: false }),
            r.position == (Vec2 { x: 0, y: 0 }),
            r.velocity == (Vec2 { x: 0, y: 0 }),
            r.has_jumped == false,
            r.last_on_ground == (true, true),
    {
        let rigid_body_desc = RigidBodyDesc { translation: Vec2::zeros(), mass: PLAYER_MASS };
        let body_handle = world.physics.add_rigid_body(rigid_body_desc);
        let collider_desc = ColliderDesc {
            half_extents: Vec2::new(PLAYER_HALF_EXTENT, PLAYER_HALF_EXTENT),
            translation: Vec2::zeros(),
            tag: ObjectType::Player,
        };
        let collider_handle = world.physics.add_collider(body_handle, collider_desc);
        Player {
            input: PlayerInput { left: false, right: false, jump: false },
            position: Vec2::zeros(),
            velocity: Vec2::zeros(),
            body_handle,
            collider_handle,
            has_jumped: false,
            last_on_ground: (true, true),
        }
    }

    /// One controller tick, given this frame's wall-clock delta `dt` in
    /// micro-seconds (the shaping, unlike the simulator step, scales with
    /// the frame delta): writes the tick's velocity policy back to the
    /// simulator, refreshes the cached position, latches `has_jumped`, and
    /// rolls the two-tick ground-contact history after consulting it.
    pub fn update(&mut self, dt: i64, world: &mut World)
        requires
            old(world).physics.wf(),
            old(self).valid_in(old(world).physics),
            0 <= dt <= DT_LIMIT,
        ensures
            final(world).physics.wf(),
            final(self).valid_in(final(world).physics),
            final(world).physics.bodies@ == old(world).physics.bodies@.update(
                old(self).body_handle.index as int,
                Body {
                    velocity: controller_velocity(
                        old(world).physics.bodies@[old(self).body_handle.index as int].velocity,
                        *old(self),
                        old(world).physics.gravity as int,
                        dt as int,
                    ),
                    ..old(world).physics.bodies@[old(self).body_handle.index as int]
                },
            ),
            final(world).physics.colliders == old(world).physics.colliders,
            final(world).physics.gravity == old(world).physics.gravity,
            final(world).physics.ticks == old(world).physics.ticks,
            final(self).position == old(world).physics.bodies@[old(
                self,
            ).body_handle.index as int].position,
            final(self).velocity == old(self).velocity,
            final(self).input == old(self).input,
            final(self).body_handle == old(self).body_handle,
            final(self).collider_handle == old(self).collider_handle,
            final(self).has_jumped == (old(self).has_jumped || jump_triggered(*old(self))),
            final(self).last_on_ground.0 == old(self).last_on_ground.1,
            final(self).last_on_ground.1 == ground_check_spec(
                old(world).physics,
                old(self).collider_handle.index as int,
            ),
    {
        let ghost w0 = world.physics;
        let ghost bi = self.body_handle.index as int;
        let direction_x: i64 = (if self.input.right {
            1
        } else {
            0
        }) - (if self.input.left {
            1
        } else {
            0
        });
        let mut velocity = world.physics.get_velocity(self.body_handle);
        // horizontal motion is driven entirely by current input
        velocity.x = 0;
        let is_grounded = self.last_on_ground.0 || self.last_on_ground.1;
        let max_vel = if is_grounded {
            MAX_VEL
        } else {
            MAX_VEL - AIR_VEL_PENALTY
        };
        let run = util::add(velocity, Vec2 { x: direction_x * max_vel, y: 0 });
        world.physics.set_velocity(self.body_handle, run);
        self.position = world.physics.get_position(self.body_handle);
        let on_ground = world.physics.ground_check(self.collider_handle, ObjectType::Player);
        proof {
            lemma_ground_check_same_geometry(
                world.physics,
                w0,
                self.collider_handle.index as int,
            );
        }
        let gravity = world.physics.get_gravity();
        proof {
            assert(gravity == GRAVITY);
        }
        if (is_grounded || !self.has_jumped) && self.input.jump {
            self.has_jumped = true;
            let jy = util::clamp(velocity.y - JUMP_POWER);
            world.physics.set_velocity(self.body_handle, Vec2 { x: 0, y: jy });
        }
        let velocity2 = world.physics.get_velocity(self.body_handle);
        if velocity2.y > 0 {
            let shape = gravity * (FALL_MULTIPLIER - SCALE) / SCALE;
            assert(shape == 112_815_000);
            let delta = shape * dt / SCALE;
            let ny = util::clamp(velocity2.y + delta);
            world.physics.set_velocity(self.body_handle, Vec2 { x: velocity2.x, y: ny });
        } else if velocity2.y < LOW_JUMP_THRESHOLD && !self.input.jump {
            let shape = gravity * (LOW_JUMP_MULTIPLIER - SCALE) / SCALE;
            assert(shape == 107_910_000);
            let delta = shape * dt / SCALE;
            let ny = util::clamp(velocity2.y + delta);
            world.physics.set_velocity(self.body_handle, Vec2 { x: velocity2.x, y: ny });
        }
        self.last_on_ground.0 = self.last_on_ground.1;
        self.last_on_ground.1 = on_ground;
        proof {
            assert(world.physics.bodies@ =~= w0.bodies@.update(
                bi,
                Body {
                    velocity: controller_velocity(
                        w0.bodies@[bi].velocity,
                        *old(self),
                        w0.gravity as int,
                        dt as int,
                    ),
                    ..w0.bodies@[bi]
                },
            ));
        }
    }
}

} // verus!
