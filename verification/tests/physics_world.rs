use lava_floor::physics::{
    ColliderDesc, ObjectType, Physics2D, RigidBodyDesc, GRAVITY, GRAVITY_STEP,
};
use lava_floor::platform::Platform;
use lava_floor::player::Player;
use lava_floor::util::Vec2;
use lava_floor::world::World;

fn v(x: i64, y: i64) -> Vec2 {
    Vec2 { x, y }
}

#[test]
fn gravity_constant_is_configured_at_construction() {
    let physics = Physics2D::new();
    assert_eq!(physics.get_gravity(), GRAVITY);
    assert_eq!(GRAVITY, 9_810_000);
    assert_eq!(GRAVITY_STEP, 163_500);
    assert_eq!(GRAVITY_STEP * 60, GRAVITY);
}

#[test]
fn body_accessors_read_and_write() {
    let mut physics = Physics2D::new();
    let body = physics.add_rigid_body(RigidBodyDesc { translation: v(7, -9), mass: 10_200_000 });
    assert_eq!(physics.get_position(body), v(7, -9));
    assert_eq!(physics.get_velocity(body), v(0, 0));
    physics.set_position(body, v(1_000_000, 2_000_000));
    physics.set_velocity(body, v(-3, 4));
    assert_eq!(physics.get_position(body), v(1_000_000, 2_000_000));
    assert_eq!(physics.get_velocity(body), v(-3, 4));
}

#[test]
fn collider_lookup_and_user_datas() {
    let mut physics = Physics2D::new();
    let body = physics.add_rigid_body(RigidBodyDesc { translation: v(0, 0), mass: 1 });
    let ground = physics.add_ground();
    let c0 = physics.add_collider(
        body,
        ColliderDesc {
            half_extents: v(10_000_000, 10_000_000),
            translation: v(0, 0),
            tag: ObjectType::Player,
        },
    );
    let c1 = physics.add_collider(
        ground,
        ColliderDesc {
            half_extents: v(800_000_000, 1_000_000),
            translation: v(0, 300_000_000),
            tag: ObjectType::Platform,
        },
    );
    let col = physics.get_collider(c1);
    assert_eq!(col.half_extents, v(800_000_000, 1_000_000));
    assert_eq!(col.offset, v(0, 300_000_000));
    assert!(col.tag == ObjectType::Platform);
    let datas = physics.retrieve_user_datas(c0, c1);
    assert!(datas == (ObjectType::Player, ObjectType::Platform));
    let swapped = physics.retrieve_user_datas(c1, c0);
    assert!(swapped == (ObjectType::Platform, ObjectType::Player));
}

// Sixty fixed steps on a free body integrate exactly one second of
// gravity: no contact, no wall clock involved.
#[test]
fn free_fall_integrates_exactly_n_gravity_steps() {
    let mut physics = Physics2D::new();
    let body = physics.add_rigid_body(RigidBodyDesc { translation: v(0, 0), mass: 10_200_000 });
    for _ in 0..60 {
        physics.step();
    }
    let vel = physics.get_velocity(body);
    assert_eq!(vel.y, 60 * GRAVITY_STEP);
    assert_eq!(vel.y, 9_810_000);
    assert_eq!(vel.x, 0);
    // each step moves by the new velocity over 1/60 s: k * 2725 micro-units
    let pos = physics.get_position(body);
    assert_eq!(pos.y, 2_725 * (60 * 61 / 2));
    assert_eq!(pos.y, 4_986_750);
    assert_eq!(pos.x, 0);
}

#[test]
fn horizontal_velocity_moves_body_without_gravity_interference() {
    let mut physics = Physics2D::new();
    let body = physics.add_rigid_body(RigidBodyDesc { translation: v(0, 0), mass: 1_000_000 });
    physics.set_velocity(body, v(60_000_000, 0));
    physics.step();
    let pos = physics.get_position(body);
    assert_eq!(pos.x, 1_000_000);
    let vel = physics.get_velocity(body);
    assert_eq!(vel.x, 60_000_000);
    assert_eq!(vel.y, GRAVITY_STEP);
}

fn world_with_player_on_wide_platform() -> (World, Player) {
    let mut world = World::new();
    let _platform = Platform::new(v(400_000_000, 500_000), v(0, 300_000_000), v(0, 0), &mut world);
    let mut player = Player::new(&mut world);
    // rest the player's box exactly on the platform top: 300 - 0.5 - 10
    world
        .physics
        .set_position(player.body_handle, v(0, 289_500_000));
    player.position = v(0, 289_500_000);
    (world, player)
}

// Contact queries are symmetric: same manifold geometry from either
// collider, with the tag pair swapped.
#[test]
fn collisions_symmetric_in_tag_order() {
    let (world, player) = world_with_player_on_wide_platform();
    let platform_handle = lava_floor::physics::ColliderHandle { index: 0 };
    let from_player = world.physics.collisions(player.collider_handle);
    let from_platform = world.physics.collisions(platform_handle);
    assert_eq!(from_player.len(), 1);
    assert_eq!(from_platform.len(), 1);
    assert!(from_player[0].0 == (ObjectType::Player, ObjectType::Platform));
    assert!(from_platform[0].0 == (ObjectType::Platform, ObjectType::Player));
    let m1 = &from_player[0].1;
    let m2 = &from_platform[0].1;
    assert_eq!(m1.points.len(), 1);
    assert_eq!(m2.points.len(), 1);
    assert_eq!(m1.points[0].normal, m2.points[0].normal);
    assert_eq!(m1.points[0].depth, m2.points[0].depth);
    // resting contact: vertical normal pointing from platform up to player
    assert_eq!(m1.points[0].normal, v(0, -1_000_000));
    assert_eq!(m1.points[0].depth, 0);
}

// Ground classification: a vertical contact (normal X rounds to 0) counts
// as ground; a pure side contact (normal X rounds to -1 or 1) does not.
#[test]
fn ground_check_true_on_top_contact() {
    let (world, player) = world_with_player_on_wide_platform();
    assert!(world.physics.ground_check(player.collider_handle, ObjectType::Player));
}

#[test]
fn ground_check_false_on_side_contact() {
    let mut world = World::new();
    // a pillar: half-extents (20, 50) at x=100, y=300
    let _pillar = Platform::new(v(20_000_000, 50_000_000), v(100_000_000, 300_000_000), v(0, 0), &mut world);
    let player = Player::new(&mut world);
    // flush against the pillar's left face, vertically level with it
    world
        .physics
        .set_position(player.body_handle, v(70_000_000, 300_000_000));
    let contacts = world.physics.collisions(player.collider_handle);
    assert_eq!(contacts.len(), 1);
    // side contact: the normal is horizontal (here toward the player,
    // which sits at smaller x than the pillar), so it rounds to -1
    assert_eq!(contacts[0].1.points[0].normal, v(-1_000_000, 0));
    assert!(!world.physics.ground_check(player.collider_handle, ObjectType::Player));
}

#[test]
fn ground_check_false_without_contacts() {
    let mut world = World::new();
    let _platform = Platform::new(v(400_000_000, 500_000), v(0, 300_000_000), v(0, 0), &mut world);
    let player = Player::new(&mut world);
    // far above the platform
    assert!(world.physics.collisions(player.collider_handle).is_empty());
    assert!(!world.physics.ground_check(player.collider_handle, ObjectType::Player));
}

// A player resting on a platform settles: contact resolution halts the
// gravitational fall, with no sinking and no bouncing.
#[test]
fn resting_player_settles_on_platform() {
    let (mut world, player) = world_with_player_on_wide_platform();
    for _ in 0..60 {
        world.physics.step();
        let pos = world.physics.get_position(player.body_handle);
        assert_eq!(pos, v(0, 289_500_000));
        let vel = world.physics.get_velocity(player.body_handle);
        assert_eq!(vel, v(0, 0));
    }
}

#[test]
fn falling_player_lands_and_stops() {
    let mut world = World::new();
    let _platform = Platform::new(v(400_000_000, 500_000), v(0, 300_000_000), v(0, 0), &mut world);
    let player = Player::new(&mut world);
    // drop from a bit above the rest height
    world
        .physics
        .set_position(player.body_handle, v(0, 280_000_000));
    for _ in 0..600 {
        world.physics.step();
    }
    let pos = world.physics.get_position(player.body_handle);
    assert_eq!(pos, v(0, 289_500_000));
    let vel = world.physics.get_velocity(player.body_handle);
    assert_eq!(vel, v(0, 0));
    assert!(world.physics.ground_check(player.collider_handle, ObjectType::Player));
}
