//! The top-level game state: the world, the current scene, and the event
//! routing the windowing layer feeds — one `update` per frame, one input
//! call per key event. Entering the level discards the menu's world and
//! builds a fresh one: physics state never crosses a scene boundary.

use vstd::prelude::*;

use crate::physics::{seq_ground_check, step_bodies_spec, Body, GRAVITY};
use crate::player::{controller_velocity, jump_triggered, DT_LIMIT};
use crate::scenes::{routed_input, KeyCode, LevelScene, MenuScene, Scene, SceneKind};
use crate::world::World;

verus! {

/// The scene a key event leaves behind: the menu latches its done flag on
/// the begin key; the level routes the event into the player's input.
pub open spec fn scene_after_input(
    s: Scene,
    keycode: KeyCode,
    pressed: bool,
    repeat: bool,
) -> Scene {
    match s {
        Scene::Menu(m) => Scene::Menu(
            MenuScene { is_done: m.is_done || keycode == KeyCode::Space },
        ),
        Scene::Level(l) => Scene::Level(
            LevelScene {
                player: crate::player::Player {
                    input: routed_input(l.player.input, keycode, pressed, repeat),
                    ..l.player
                },
                ..l
            },
        ),
    }
}

/// The driver of the whole game: one world, one current scene, the frame
/// bookkeeping, and the quit latch the windowing layer polls.
pub struct MainState {
    pub world: World,
    pub current_scene: Scene,
    pub ticks: usize,
    pub dt: i64,
    pub quit_requested: bool,
}

impl MainState {
    /// The driver's invariant: the physics world is well-formed, and a
    /// level scene's player really lives in it.
    pub open spec fn wf_state(&self) -> bool {
        &&& self.world.physics.wf()
        &&& (self.current_scene matches Scene::Level(l) ==> l.player.valid_in(self.world.physics))
    }

    /// Start at the menu over an empty world.
    pub fn new() -> (r: Self)
        ensures
            r.wf_state(),
            r.current_scene == Scene::Menu(MenuScene { is_done: false }),
            r.world.physics.bodies@.len() == 0,
            r.world.physics.colliders@.len() == 0,
            r.world.physics.ticks == 0,
            r.ticks == 0,
            r.dt == 0,
            r.quit_requested == false,
    {
        MainState {
            world: World::new(),
            current_scene: Scene::Menu(MenuScene::new()),
            ticks: 0,
            dt: 0,
            quit_requested: false,
        }
    }

    /// One frame: remember the frame delta, run the current scene's tick,
    /// and perform a requested transition — entering the level rebuilds
    /// the world from scratch.
    pub fn update(&mut self, dt: i64)
        requires
            old(self).wf_state(),
            0 <= dt <= DT_LIMIT,
            old(self).current_scene is Level ==> old(self).world.physics.ticks < usize::MAX,
        ensures
            final(self).wf_state(),
            final(self).dt == dt,
            final(self).ticks == old(self).ticks,
            final(self).quit_requested == old(self).quit_requested,
            (old(self).current_scene matches Scene::Menu(m) && !m.is_done) ==> (
            final(self).current_scene == old(self).current_scene
                && final(self).world == old(self).world),
            (old(self).current_scene matches Scene::Menu(m) && m.is_done) ==> ({
                &&& final(self).current_scene matches Scene::Level(l2)
                &&& l2.is_done == false
                &&& l2.player.has_jumped == false
                &&& l2.player.last_on_ground == (true, true)
                &&& l2.platforms@.len() == 4
                &&& final(self).world.physics.wf()
                &&& final(self).world.physics.bodies@.len() == 5
                &&& final(self).world.physics.colliders@.len() == 5
                &&& final(self).world.physics.ticks == 0
            }),
            old(self).current_scene matches Scene::Level(l) ==> ({
                let stepped = step_bodies_spec(
                    old(self).world.physics.bodies@,
                    old(self).world.physics.colliders@,
                );
                let bi = l.player.body_handle.index as int;
                let ch = l.player.collider_handle.index as int;
                &&& final(self).current_scene matches Scene::Level(l2)
                &&& final(self).world.physics.bodies@ == stepped.update(
                    bi,
                    Body {
                        velocity: controller_velocity(
                            stepped[bi].velocity,
                            l.player,
                            GRAVITY as int,
                            dt as int,
                        ),
                        ..stepped[bi]
                    },
                )
                &&& final(self).world.physics.colliders == old(self).world.physics.colliders
                &&& final(self).world.physics.ticks == old(self).world.physics.ticks + 1
                &&& l2.player.input == l.player.input
                &&& l2.player.has_jumped == (l.player.has_jumped || jump_triggered(l.player))
                &&& l2.player.last_on_ground.0 == l.player.last_on_ground.1
                &&& l2.player.last_on_ground.1 == seq_ground_check(
                    stepped,
                    old(self).world.physics.colliders@,
                    ch,
                )
                &&& l2.player.position == stepped[bi].position
                &&& l2.platforms == l.platforms
                &&& l2.is_done == l.is_done
            }),
    {
        self.dt = dt;
        let transition: Option<SceneKind> = match &mut self.current_scene {
            Scene::Menu(m) => m.update(),
            Scene::Level(l) => l.update(dt, &mut self.world),
        };
        if let Some(SceneKind::Level) = transition {
            let mut w = World::new();
            let level = LevelScene::new(&mut w);
            self.world = w;
            self.current_scene = Scene::Level(level);
        }
    }

    /// A key went down: the quit key latches the quit request; everything
    /// else is routed into the current scene.
    pub fn key_down_event(&mut self, keycode: KeyCode, repeat: bool)
        ensures
            final(self).quit_requested == (old(self).quit_requested || keycode == KeyCode::Escape),
            final(self).current_scene == scene_after_input(
                old(self).current_scene,
                keycode,
                true,
                repeat,
            ),
            final(self).world == old(self).world,
            final(self).ticks == old(self).ticks,
            final(self).dt == old(self).dt,
    {
        if keycode == KeyCode::Escape {
            self.quit_requested = true;
        }
        match &mut self.current_scene {
            Scene::Menu(m) => m.input(keycode, true, repeat),
            Scene::Level(l) => l.input(keycode, true, repeat),
        }
    }

    /// A key went up: routed into the current scene as a release.
    pub fn key_up_event(&mut self, keycode: KeyCode)
        ensures
            final(self).quit_requested == old(self).quit_requested,
            final(self).current_scene == scene_after_input(
                old(self).current_scene,
                keycode,
                false,
                false,
            ),
            final(self).world == old(self).world,
            final(self).ticks == old(self).ticks,
            final(self).dt == old(self).dt,
    {
        match &mut self.current_scene {
            Scene::Menu(m) => m.input(keycode, false, false),
            Scene::Level(l) => l.input(keycode, false, false),
        }
    }
}

} // verus!
