use lava_floor::game::MainState;
use lava_floor::gfx::{collider_aabbs, pawn_draw_data, DrawPawnType};
use lava_floor::physics::ObjectType;
use lava_floor::platform::Platform;
use lava_floor::player::Player;
use lava_floor::scenes::{KeyCode, LevelScene, MenuScene, Scene, SceneKind};
use lava_floor::util;
use lava_floor::util::Vec2;
use lava_floor::world::World;

fn v(x: i64, y: i64) -> Vec2 {
    Vec2 { x, y }
}

const DT_60FPS: i64 = 16_667;

fn world_with_player() -> (World, Player) {
    let mut world = World::new();
    let player = Player::new(&mut world);
    (world, player)
}

// Horizontal velocity is fully input-driven: zero input gives exactly 0
// horizontal velocity after one update, whatever it was before.
#[test]
fn zero_input_zeroes_horizontal_velocity() {
    let (mut world, mut player) = world_with_player();
    world.physics.set_velocity(player.body_handle, v(55_000_000, 0));
    player.update(0, &mut world);
    let vel = world.physics.get_velocity(player.body_handle);
    assert_eq!(vel.x, 0);
    assert_eq!(vel.y, 0);
}

#[test]
fn held_direction_gives_capped_speed_grounded_and_airborne() {
    let (mut world, mut player) = world_with_player();
    player.input.right = true;
    // ground buffer is primed at creation: full cap
    player.update(0, &mut world);
    assert_eq!(world.physics.get_velocity(player.body_handle).x, 100_000_000);
    // airborne (no contact anywhere): reduced cap
    player.last_on_ground = (false, false);
    player.update(0, &mut world);
    assert_eq!(world.physics.get_velocity(player.body_handle).x, 80_000_000);
    // left and right together cancel
    player.input.left = true;
    player.update(0, &mut world);
    assert_eq!(world.physics.get_velocity(player.body_handle).x, 0);
}

// Jump availability: with the latch clear one airborne jump fires, and
// only one; afterwards a jump needs ground contact within two ticks.
#[test]
fn airborne_jump_fires_exactly_once() {
    let (mut world, mut player) = world_with_player();
    // two no-input ticks drain the primed ground buffer (no platforms)
    player.update(0, &mut world);
    player.update(0, &mut world);
    assert_eq!(player.last_on_ground, (false, false));
    assert!(!player.has_jumped);
    player.input.jump = true;
    player.update(0, &mut world);
    assert!(player.has_jumped);
    assert_eq!(world.physics.get_velocity(player.body_handle), v(0, -20_000_000));
    // still airborne, key still held: no second impulse
    player.update(0, &mut world);
    assert_eq!(world.physics.get_velocity(player.body_handle), v(0, -20_000_000));
    // fresh press while airborne with the latch set: still nothing
    player.input.jump = false;
    player.update(0, &mut world);
    player.input.jump = true;
    player.update(DT_60FPS, &mut world);
    let vel = world.physics.get_velocity(player.body_handle);
    assert!(vel.y > -20_000_000 - 1);
    assert_ne!(vel.y, -40_000_000);
}

#[test]
fn coyote_buffer_allows_jump_one_tick_after_leaving_ground() {
    let (mut world, mut player) = world_with_player();
    player.has_jumped = true;
    // ground contact only one tick ago still counts
    player.last_on_ground = (true, false);
    player.input.jump = true;
    player.update(0, &mut world);
    assert_eq!(world.physics.get_velocity(player.body_handle), v(0, -20_000_000));
}

// Variable jump height: releasing the jump key while rising strictly
// reduces the remaining rise compared to holding it.
#[test]
fn releasing_jump_key_cuts_rise() {
    let (mut world_held, mut held) = world_with_player();
    let (mut world_rel, mut released) = world_with_player();
    for (world, player) in [(&mut world_held, &mut held), (&mut world_rel, &mut released)] {
        player.has_jumped = true;
        player.last_on_ground = (false, false);
        world.physics.set_velocity(player.body_handle, v(0, -10_000_000));
    }
    held.input.jump = true;
    released.input.jump = false;
    held.update(DT_60FPS, &mut world_held);
    released.update(DT_60FPS, &mut world_rel);
    let vy_held = world_held.physics.get_velocity(held.body_handle).y;
    let vy_released = world_rel.physics.get_velocity(released.body_handle).y;
    assert_eq!(vy_held, -10_000_000);
    // 9.81 * (12 - 1) * dt = 107_910_000 * 16_667 / 1_000_000
    assert_eq!(vy_released, -10_000_000 + 1_798_535);
    assert!(vy_released > vy_held);
}

#[test]
fn fast_fall_shaping_applies_while_moving_down() {
    let (mut world, mut player) = world_with_player();
    player.has_jumped = true;
    player.last_on_ground = (false, false);
    world.physics.set_velocity(player.body_handle, v(0, 5_000_000));
    player.update(DT_60FPS, &mut world);
    // 9.81 * (12.5 - 1) * dt = 112_815_000 * 16_667 / 1_000_000
    assert_eq!(world.physics.get_velocity(player.body_handle).y, 5_000_000 + 1_880_287);
}

// Pressing jump while grounded: an immediate upward impulse of exactly
// the configured magnitude, with horizontal velocity reset to 0.
#[test]
fn grounded_jump_gives_exact_impulse_and_zero_horizontal() {
    let mut world = World::new();
    let _platform = Platform::new(v(400_000_000, 500_000), v(0, 300_000_000), v(0, 0), &mut world);
    let mut player = Player::new(&mut world);
    world.physics.set_position(player.body_handle, v(0, 289_500_000));
    world.physics.step();
    assert!(world.physics.ground_check(player.collider_handle, ObjectType::Player));
    player.input.right = true;
    player.input.jump = true;
    player.update(0, &mut world);
    let vel = world.physics.get_velocity(player.body_handle);
    assert_eq!(vel, v(0, -20_000_000));
    assert!(player.has_jumped);
}

// A resting player stays at rest through whole scene ticks: step plus
// controller, sixty times.
#[test]
fn scene_ticks_keep_resting_player_settled() {
    let mut world = World::new();
    let _platform = Platform::new(v(400_000_000, 500_000), v(0, 300_000_000), v(0, 0), &mut world);
    let mut player = Player::new(&mut world);
    world.physics.set_position(player.body_handle, v(0, 289_500_000));
    for _ in 0..60 {
        world.physics.step();
        world.physics.ticks += 1;
        player.update(DT_60FPS, &mut world);
        assert_eq!(player.position, v(0, 289_500_000));
    }
    assert_eq!(world.physics.ticks, 60);
    assert!(player.last_on_ground.1);
}

#[test]
fn menu_scene_finishes_on_space_and_requests_level() {
    let mut menu = MenuScene::new();
    assert!(!menu.is_done);
    assert!(menu.update().is_none());
    menu.input(KeyCode::A, true, false);
    assert!(!menu.is_done);
    menu.input(KeyCode::Space, true, false);
    assert!(menu.is_done);
    assert!(menu.update() == Some(SceneKind::Level));
}

#[test]
fn level_scene_builds_hardcoded_level() {
    let mut world = World::new();
    let level = LevelScene::new(&mut world);
    assert_eq!(level.platforms.len(), 4);
    assert!(!level.is_done);
    assert_eq!(world.physics.bodies.len(), 5);
    assert_eq!(world.physics.colliders.len(), 5);
    assert_eq!(level.platforms[0].shape, v(800_000_000, 1_000_000));
    assert_eq!(level.platforms[3].shape, v(20_000_000, 60_000_000));
    assert!(level.platforms[1].object_type == ObjectType::Platform);
}

#[test]
fn level_scene_input_routes_keys() {
    let mut world = World::new();
    let mut level = LevelScene::new(&mut world);
    level.input(KeyCode::A, true, false);
    assert!(level.player.input.left);
    level.input(KeyCode::Left, false, false);
    assert!(!level.player.input.left);
    level.input(KeyCode::D, true, false);
    assert!(level.player.input.right);
    level.input(KeyCode::Space, true, true);
    // a repeated press never sets the jump flag
    assert!(!level.player.input.jump);
    level.input(KeyCode::Space, true, false);
    assert!(level.player.input.jump);
    level.input(KeyCode::Space, false, false);
    assert!(!level.player.input.jump);
}

#[test]
fn level_scene_update_steps_once_and_never_transitions() {
    let mut world = World::new();
    let mut level = LevelScene::new(&mut world);
    let before = world.physics.ticks;
    let transition = level.update(DT_60FPS, &mut world);
    assert!(transition.is_none());
    assert_eq!(world.physics.ticks, before + 1);
}

#[test]
fn scene_names() {
    let menu = Scene::Menu(MenuScene::new());
    assert_eq!(menu.name(), "Menu Scene");
    let mut world = World::new();
    let level = Scene::Level(LevelScene::new(&mut world));
    assert_eq!(level.name(), "Level Scene");
}

#[test]
fn main_state_menu_to_level_transition_rebuilds_world() {
    let mut state = MainState::new();
    assert!(matches!(state.current_scene, Scene::Menu(_)));
    state.update(DT_60FPS);
    assert!(matches!(state.current_scene, Scene::Menu(_)));
    state.key_down_event(KeyCode::Space, false);
    state.update(DT_60FPS);
    assert!(matches!(state.current_scene, Scene::Level(_)));
    assert_eq!(state.world.physics.bodies.len(), 5);
    assert_eq!(state.world.physics.ticks, 0);
    // the next frame runs the level: the simulator advances
    state.update(DT_60FPS);
    assert_eq!(state.world.physics.ticks, 1);
    assert_eq!(state.dt, DT_60FPS);
}

#[test]
fn main_state_escape_latches_quit() {
    let mut state = MainState::new();
    assert!(!state.quit_requested);
    state.key_down_event(KeyCode::Other, false);
    assert!(!state.quit_requested);
    state.key_down_event(KeyCode::Escape, false);
    assert!(state.quit_requested);
    state.key_up_event(KeyCode::Escape);
    assert!(state.quit_requested);
}

#[test]
fn main_state_routes_keys_into_level() {
    let mut state = MainState::new();
    state.key_down_event(KeyCode::Space, false);
    state.update(0);
    state.key_down_event(KeyCode::D, false);
    if let Scene::Level(l) = &state.current_scene {
        assert!(l.player.input.right);
    } else {
        panic!("expected the level scene");
    }
    state.key_up_event(KeyCode::D);
    if let Scene::Level(l) = &state.current_scene {
        assert!(!l.player.input.right);
    } else {
        panic!("expected the level scene");
    }
}

#[test]
fn pawn_draw_data_lists_player_colliders() {
    let mut world = World::new();
    let _level = LevelScene::new(&mut world);
    let pawns = pawn_draw_data(&world.physics);
    assert_eq!(pawns.len(), 1);
    assert!(pawns[0].pawn_type == DrawPawnType::Player);
    assert_eq!(pawns[0].position, v(0, 0));
    assert_eq!(pawns[0].rotation, 0);
}

#[test]
fn collider_aabbs_cover_every_collider() {
    let mut world = World::new();
    let _platform = Platform::new(v(800_000_000, 1_000_000), v(0, 300_000_000), v(0, 0), &mut world);
    let _player = Player::new(&mut world);
    let boxes = collider_aabbs(&world.physics);
    assert_eq!(boxes.len(), 2);
    assert_eq!(boxes[0].mins, v(-800_000_000, 299_000_000));
    assert_eq!(boxes[0].extents, v(1_600_000_000, 2_000_000));
    assert_eq!(boxes[1].mins, v(-10_000_000, -10_000_000));
    assert_eq!(boxes[1].extents, v(20_000_000, 20_000_000));
}

#[test]
fn fixed_point_helpers_compute_exactly() {
    assert_eq!(util::add(v(1, 2), v(30, -40)), v(31, -38));
    assert_eq!(util::sub(v(1, 2), v(30, -40)), v(-29, 42));
    assert_eq!(util::clamp(2_000_000_000_000), 1_000_000_000_000);
    assert_eq!(util::clamp(-2_000_000_000_000), -1_000_000_000_000);
    assert_eq!(util::clamp(42), 42);
    // division truncates toward zero, as the simulator's integration does
    assert_eq!(util::div_by_step_rate(163_500), 2_725);
    assert_eq!(util::div_by_step_rate(-163), -2);
    assert_eq!(util::div_by_step_rate(163), 2);
}
