//! Scenes: the menu and the level, as a closed tagged variant with an
//! explicit transition result — the scene set is known at design time.
//!
//! The level scene drives the per-tick sequence: step the physics world
//! exactly once, bump the tick counter, then run the player controller;
//! nothing else may call `step`.

use vstd::prelude::*;

use crate::physics::{
    lemma_ground_check_spec_is_seq, lemma_step_bodies_preserves, seq_ground_check, step_bodies_spec,
    arenas_ok, Body, BodyKind, ObjectType, GRAVITY,
};
use crate::platform::Platform;
use crate::player::{controller_velocity, jump_triggered, Player, DT_LIMIT};
use crate::util::Vec2;
use crate::world::World;

verus! {

/// The keys the game reacts to; anything else maps to `Other`.
#[derive(PartialEq, Eq, Structural, Debug, Clone, Copy)]
pub enum KeyCode {
    A,
    D,
    Left,
    Right,
    Space,
    Escape,
    Other,
}

/// The closed set of scene kinds, used as an explicit transition target.
#[derive(PartialEq, Eq, Structural, Debug, Clone, Copy)]
pub enum SceneKind {
    Menu,
    Level,
}

/// The title menu: only remembers whether the begin key was pressed.
#[derive(PartialEq, Eq, Structural, Debug, Clone, Copy)]
pub struct MenuScene {
    pub is_done: bool,
}

impl MenuScene {
    pub fn new() -> (r: Self)
        ensures
            r.is_done == false,
    {
        MenuScene { is_done: false }
    }

    /// The menu's tick: request the switch to the level once done,
    /// otherwise stay.
    pub fn update(&mut self) -> (r: Option<SceneKind>)
        ensures
            *final(self) == *old(self),
            r == if old(self).is_done {
                Some(SceneKind::Level)
            } else {
                None::<SceneKind>
            },
    {
        if self.is_done {
            Some(SceneKind::Level)
        } else {
            None
        }
    }

    /// Any event on the begin key finishes the menu.
    pub fn input(&mut self, keycode: KeyCode, _started: bool, _repeat: bool)
        ensures
            final(self).is_done == (old(self).is_done || keycode == KeyCode::Space),
    {
        if keycode == KeyCode::Space {
            self.is_done = true;
        }
    }
}

/// The playable level: its static platforms and the player pawn.
#[derive(Debug, Clone)]
pub struct LevelScene {
    pub platforms: Vec<Platform>,
    pub player: Player,
    pub is_done: bool,
}

impl LevelScene {
    /// Build the hardcoded level: a wide floor and three pillars, all at
    /// height 300, then the player.
    pub fn new(world: &mut World) -> (r: Self)
        requires
            old(world).physics.wf(),
        ensures
            final(world).physics.wf(),
            r.player.valid_in(final(world).physics),
            r.is_done == false,
            r.platforms@.len() == 4,
            r.player.input == (crate::player::PlayerInput { left: false, right: false, jump: false }),
            r.player.has_jumped == false,
            r.player.last_on_ground == (true, true),
            final(world).physics.bodies@ == old(world).physics.bodies@.push(static_body())
                .push(static_body()).push(static_body()).push(static_body()).push(
                Body {
                    kind: BodyKind::Dynamic,
                    position: Vec2 { x: 0, y: 0 },
                    velocity: Vec2 { x: 0, y: 0 },
                    mass: crate::player::PLAYER_MASS,
                },
            ),
            final(world).physics.colliders@.len() == old(world).physics.colliders@.len() + 5,
            final(world).physics.gravity == old(world).physics.gravity,
            final(world).physics.ticks == old(world).physics.ticks,
            forall|i: int|
                0 <= i < 4 ==> (#[trigger] final(world).physics.colliders@[
                    old(world).physics.colliders@.len() as int + i
                ]) == level_platform_collider(old(world).physics.bodies@.len() as int, i),
            final(world).physics.colliders@[old(world).physics.colliders@.len() as int + 4]
                == (crate::physics::Collider {
                body: crate::physics::BodyHandle {
                    index: (old(world).physics.bodies@.len() + 4) as usize,
                },
                half_extents: Vec2 {
                    x: crate::player::PLAYER_HALF_EXTENT,
                    y: crate::player::PLAYER_HALF_EXTENT,
                },
                offset: Vec2 { x: 0, y: 0 },
                tag: ObjectType::Player,
            }),
            forall|i: int|
                0 <= i < old(world).physics.colliders@.len() ==> (
                #[trigger] final(world).physics.colliders@[i]) == old(world).physics.colliders@[i],
    {
        let mut platforms: Vec<Platform> = Vec::new();
        platforms.push(
            Platform::new(
                Vec2 { x: 800_000_000, y: 1_000_000 },
                Vec2 { x: 0, y: 300_000_000 },
                Vec2 { x: 0, y: 0 },
                world,
            )
        );
        platforms.push(
            Platform::new(
                Vec2 { x: 20_000_000, y: 50_000_000 },
                Vec2 { x: 100_000_000, y: 300_000_000 },
                Vec2 { x: 100_000_000, y: 10_000_000 },
                world,
            )
        );
        platforms.push(
            Platform::new(
                Vec2 { x: 20_000_000, y: 40_000_000 },
                Vec2 { x: 300_000_000, y: 300_000_000 },
                Vec2 { x: 100_000_000, y: 10_000_000 },
                world,
            )
        );
        platforms.push(
            Platform::new(
                Vec2 { x: 20_000_000, y: 60_000_000 },
                Vec2 { x: 500_000_000, y: 300_000_000 },
                Vec2 { x: 100_000_000, y: 10_000_000 },
                world,
            )
        );
        let player = Player::new(world);
        LevelScene { platforms, player, is_done: false }
    }

    /// One logical tick: step the simulator exactly once, bump the tick
    /// counter, then run the controller on the stepped state. The level
    /// never requests a transition.
    pub fn update(&mut self, dt: i64, world: &mut World) -> (r: Option<SceneKind>)
        requires
            old(world).physics.wf(),
            old(self).player.valid_in(old(world).physics),
            old(world).physics.ticks < usize::MAX,
            0 <= dt <= DT_LIMIT,
        ensures
            r == None::<SceneKind>,
            final(world).physics.wf(),
            final(self).player.valid_in(final(world).physics),
            final(world).physics.ticks == old(world).physics.ticks + 1,
            final(world).physics.colliders == old(world).physics.colliders,
            final(world).physics.gravity == old(world).physics.gravity,
            final(self).platforms == old(self).platforms,
            final(self).is_done == old(self).is_done,
            final(self).player.input == old(self).player.input,
            final(self).player.body_handle == old(self).player.body_handle,
            final(self).player.collider_handle == old(self).player.collider_handle,
            ({
                let stepped = step_bodies_spec(
                    old(world).physics.bodies@,
                    old(world).physics.colliders@,
                );
                let bi = old(self).player.body_handle.index as int;
                let ch = old(self).player.collider_handle.index as int;
                &&& final(world).physics.bodies@ == stepped.update(
                    bi,
                    Body {
                        velocity: controller_velocity(
                            stepped[bi].velocity,
                            old(self).player,
                            GRAVITY as int,
                            dt as int,
                        ),
                        ..stepped[bi]
                    },
                )
                &&& final(self).player.position == stepped[bi].position
                &&& final(self).player.has_jumped == (old(self).player.has_jumped
                    || jump_triggered(old(self).player))
                &&& final(self).player.last_on_ground.0 == old(self).player.last_on_ground.1
                &&& final(self).player.last_on_ground.1 == seq_ground_check(
                    stepped,
                    old(world).physics.colliders@,
                    ch,
                )
            }),
    {
        proof {
            assert(arenas_ok(old(world).physics.bodies@, old(world).physics.colliders@));
            lemma_step_bodies_preserves(old(world).physics.bodies@, old(world).physics.colliders@);
        }
        world.physics.step();
        world.physics.ticks = world.physics.ticks + 1;
        proof {
            lemma_ground_check_spec_is_seq(
                world.physics,
                self.player.collider_handle.index as int,
            );
        }
        self.player.update(dt, world);
        None
    }

    /// Route a key event into the player's input flags: the jump flag is
    /// set only on a fresh (non-repeat) press.
    pub fn input(&mut self, keycode: KeyCode, pressed: bool, repeat: bool)
        ensures
            final(self).player.input == routed_input(old(self).player.input, keycode, pressed, repeat),
            final(self).player.position == old(self).player.position,
            final(self).player.velocity == old(self).player.velocity,
            final(self).player.body_handle == old(self).player.body_handle,
            final(self).player.collider_handle == old(self).player.collider_handle,
            final(self).player.has_jumped == old(self).player.has_jumped,
            final(self).player.last_on_ground == old(self).player.last_on_ground,
            final(self).platforms == old(self).platforms,
            final(self).is_done == old(self).is_done,
    {
        match keycode {
            KeyCode::A | KeyCode::Left => {
                self.player.input.left = pressed;
            },
            KeyCode::D | KeyCode::Right => {
                self.player.input.right = pressed;
            },
            KeyCode::Space => {
                self.player.input.jump = pressed && !repeat;
            },
            _ => (),
        }
    }
}

/// Where a key event lands in the input flags: left and right are
/// level-triggered by their movement keys, the jump flag only by a fresh
/// (non-repeat) press of the jump key.
pub open spec fn routed_input(
    i: crate::player::PlayerInput,
    keycode: KeyCode,
    pressed: bool,
    repeat: bool,
) -> crate::player::PlayerInput {
    crate::player::PlayerInput {
        left: if keycode == KeyCode::A || keycode == KeyCode::Left {
            pressed
        } else {
            i.left
        },
        right: if keycode == KeyCode::D || keycode == KeyCode::Right {
            pressed
        } else {
            i.right
        },
        jump: if keycode == KeyCode::Space {
            pressed && !repeat
        } else {
            i.jump
        },
    }
}

/// The immovable origin body a platform inserts.
pub open spec fn static_body() -> Body {
    Body {
        kind: BodyKind::Static,
        position: Vec2 { x: 0, y: 0 },
        velocity: Vec2 { x: 0, y: 0 },
        mass: 0,
    }
}

/// Collider `i` of the hardcoded level, given the index of its body.
pub open spec fn level_platform_collider(first_body: int, i: int) -> crate::physics::Collider {
    crate::physics::Collider {
        body: crate::physics::BodyHandle { index: (first_body + i) as usize },
        half_extents: if i == 0 {
            Vec2 { x: 800_000_000, y: 1_000_000 }
        } else if i == 1 {
            Vec2 { x: 20_000_000, y: 50_000_000 }
        } else if i == 2 {
            Vec2 { x: 20_000_000, y: 40_000_000 }
        } else {
            Vec2 { x: 20_000_000, y: 60_000_000 }
        },
        offset: if i == 0 {
            Vec2 { x: 0, y: 300_000_000 }
        } else if i == 1 {
            Vec2 { x: 100_000_000, y: 300_000_000 }
        } else if i == 2 {
            Vec2 { x: 300_000_000, y: 300_000_000 }
        } else {
            Vec2 { x: 500_000_000, y: 300_000_000 }
        },
        tag: ObjectType::Platform,
    }
}

/// The closed scene variant: menu or level.
#[derive(Debug, Clone)]
pub enum Scene {
    Menu(MenuScene),
    Level(LevelScene),
}

impl Scene {
    /// The scene's display name.
    pub fn name(&self) -> (r: &'static str)
        ensures
            self is Menu ==> r@ == "Menu Scene"@,
            self is Level ==> r@ == "Level Scene"@,
    {
        match self {
            Scene::Menu(_) => "Menu Scene",
            Scene::Level(_) => "Level Scene",
        }
    }
}

} // verus!
