//! Session-level checks: the initial world, whole ticks in phase order, and
//! the end-to-end asteroid scenario — seeded, damaged over five contacts,
//! destroyed, and fragmented into its children.

use survive::asteroid::{AsteroidClass, AsteroidHealth};
use survive::collision::CollisionPair;
use survive::geom::{Pose, Vec2i};
use survive::input::{InputAction, InputState};
use survive::projectile::{Laser, LaserBoltBundle};
use survive::rng::rng_from_seed;
use survive::world::{
    asteroid_spawner, handle_collisions, handle_destroyed_asteroids, setup,
    update_mouse_position_system, update_weapons, world_tick, World,
};

fn idle_input() -> InputState {
    InputState { left: false, right: false, up: false, down: false, fire: false, cursor: None }
}

fn fire_input() -> InputState {
    InputState { left: false, right: false, up: false, down: false, fire: true, cursor: None }
}

#[test]
fn setup_seeds_one_big_asteroid_request() {
    let w = setup();
    assert_eq!(w.asteroids.len(), 0);
    assert_eq!(w.lasers.len(), 0);
    assert_eq!(w.pending_asteroids.len(), 1);
    let e = &w.pending_asteroids[0];
    assert_eq!(e.class, AsteroidClass::Big);
    assert_eq!(e.origin, Vec2i { x: 100, y: 100 });
    assert_eq!(e.velocity, Vec2i { x: 0, y: 0 });
    assert_eq!(w.ship.id, 0);
    assert_eq!(w.next_id, 1);
    assert!(w.aim.is_none());
}

// End-to-end: a Big asteroid seeded at (100,100) with zero velocity stays
// Big with health 5 through undamaged ticks.
#[test]
fn undamaged_asteroid_persists() {
    let mut w = setup();
    let mut rng = rng_from_seed(1);
    let none: Vec<CollisionPair> = Vec::new();
    world_tick(&mut w, idle_input(), 16, &none, &mut rng);
    assert_eq!(w.asteroids.len(), 1);
    let a = w.asteroids[0];
    assert_eq!(a.bundle.class, AsteroidClass::Big);
    assert_eq!(a.bundle.health, AsteroidHealth(5));
    assert_eq!(a.pos, Vec2i { x: 100, y: 100 });
    for _ in 0..100 {
        world_tick(&mut w, idle_input(), 16, &none, &mut rng);
    }
    assert_eq!(w.asteroids.len(), 1);
    assert_eq!(w.asteroids[0].bundle.class, AsteroidClass::Big);
    assert_eq!(w.asteroids[0].bundle.health, AsteroidHealth(5));
    assert_eq!(w.asteroids[0].pos, Vec2i { x: 100, y: 100 });
}

fn push_test_laser(w: &mut World) -> u64 {
    let id = w.next_id;
    w.lasers.push(Laser {
        id,
        pos: Vec2i { x: 100, y: 100 },
        bolt: LaserBoltBundle::default(),
    });
    w.next_id += 1;
    id
}

// End-to-end: five asteroid-projectile contacts destroy the Big asteroid;
// the fragmentation event produces its Medium children, the center one at
// the parent's position.
#[test]
fn five_hits_destroy_and_fragment() {
    let mut w = setup();
    let mut rng = rng_from_seed(2);
    let none: Vec<CollisionPair> = Vec::new();
    world_tick(&mut w, idle_input(), 16, &none, &mut rng);
    assert_eq!(w.asteroids.len(), 1);
    let asteroid_id = w.asteroids[0].id;

    for hit in 1..=4 {
        let laser_id = push_test_laser(&mut w);
        let pairs = vec![CollisionPair { entity1: asteroid_id, entity2: laser_id }];
        handle_collisions(&mut w, &pairs);
        assert_eq!(w.lasers.len(), 0);
        assert_eq!(w.asteroids[0].bundle.health, AsteroidHealth(5 - hit));
        assert_eq!(w.asteroids.len(), 1);
    }

    // The fifth contact brings health to zero; fragmentation fires.
    let laser_id = push_test_laser(&mut w);
    let pairs = vec![CollisionPair { entity1: laser_id, entity2: asteroid_id }];
    handle_collisions(&mut w, &pairs);
    assert_eq!(w.asteroids[0].bundle.health, AsteroidHealth(0));
    handle_destroyed_asteroids(&mut w, &mut rng);
    assert_eq!(w.asteroids.len(), 0);
    assert_eq!(w.pending_asteroids.len(), 7);
    for e in &w.pending_asteroids {
        assert_eq!(e.class, AsteroidClass::Medium);
    }
    // Center child at the parent's position, at rest.
    assert_eq!(w.pending_asteroids[0].origin, Vec2i { x: 100, y: 100 });
    assert_eq!(w.pending_asteroids[0].velocity, Vec2i { x: 0, y: 0 });
    // Ring children sit at the ring radius' integer offsets around the
    // parent, with the parent's (zero) velocity plus bounded jitter.
    for e in &w.pending_asteroids[1..] {
        assert!((e.origin.x - 100).abs() <= 68);
        assert!((e.origin.y - 100).abs() <= 68);
        assert!(e.velocity.x.abs() <= 45);
        assert!(e.velocity.y.abs() <= 45);
        assert!(e.angular.abs() <= 5000);
    }

    asteroid_spawner(&mut w);
    assert_eq!(w.pending_asteroids.len(), 0);
    assert_eq!(w.asteroids.len(), 7);
    for a in &w.asteroids {
        assert_eq!(a.bundle.class, AsteroidClass::Medium);
        assert_eq!(a.bundle.health, AsteroidHealth(4));
        assert_eq!(a.bundle.collider_radius, 22);
    }
}

// A whole tick also carries the fragmentation through spawning: hitting a
// Small asteroid to zero within the tick yields its four Tiny children.
#[test]
fn tick_fragments_within_same_tick() {
    let mut w = setup();
    // Replace the pending Big request with a Small one, already weakened.
    w.pending_asteroids[0].class = AsteroidClass::Small;
    let mut rng = rng_from_seed(3);
    let none: Vec<CollisionPair> = Vec::new();
    world_tick(&mut w, idle_input(), 16, &none, &mut rng);
    assert_eq!(w.asteroids.len(), 1);
    let asteroid_id = w.asteroids[0].id;
    w.asteroids[0].bundle.health = AsteroidHealth(1);

    let laser_id = push_test_laser(&mut w);
    let pairs = vec![CollisionPair { entity1: asteroid_id, entity2: laser_id }];
    world_tick(&mut w, idle_input(), 16, &pairs, &mut rng);
    assert_eq!(w.asteroids.len(), 4);
    for a in &w.asteroids {
        assert_eq!(a.bundle.class, AsteroidClass::Tiny);
        assert_eq!(a.bundle.health, AsteroidHealth(2));
    }
    // Tiny asteroids are terminal: destroying one yields nothing.
    for i in 0..4 {
        w.asteroids[i].bundle.health = AsteroidHealth(0);
    }
    world_tick(&mut w, idle_input(), 16, &none, &mut rng);
    assert_eq!(w.asteroids.len(), 0);
    assert_eq!(w.pending_asteroids.len(), 0);
}

// Holding fire across ticks: the weapon's first shot comes once the
// interval has elapsed, and the projectile flies toward the aim point.
#[test]
fn firing_spawns_laser_toward_aim() {
    let mut w = setup();
    let mut rng = rng_from_seed(4);
    let none: Vec<CollisionPair> = Vec::new();
    // Aim to the right of the ship.
    let mut input = fire_input();
    input.cursor = Some(Vec2i { x: 300, y: 0 });
    // Weapon starts cold with a 500 ms interval: 4 ticks of 100 ms keep it
    // cooling, the fifth fires.
    for _ in 0..4 {
        world_tick(&mut w, input, 100, &none, &mut rng);
        assert_eq!(w.lasers.len(), 0);
    }
    world_tick(&mut w, input, 100, &none, &mut rng);
    assert_eq!(w.lasers.len(), 1);
    assert_eq!(w.lasers[0].pos, Vec2i { x: 0, y: 0 });
    assert_eq!(w.lasers[0].bolt.linear_velocity, Vec2i { x: 500, y: 0 });
    // Within the next interval, holding fire adds no second projectile.
    world_tick(&mut w, input, 100, &none, &mut rng);
    assert_eq!(w.lasers.len(), 1);
}

// Multiple fire intents within one tick cannot cause more than one spawn:
// the first shot resets the cooldown, which gates the rest.
#[test]
fn repeated_fire_intents_spawn_once() {
    let mut w = setup();
    w.ship.weapon.fire_timer.elapsed_ms = 500;
    let intents = vec![InputAction::Fire, InputAction::Fire, InputAction::Fire];
    let events = update_weapons(&mut w, &intents, 0);
    assert_eq!(events.len(), 1);
    assert_eq!(w.ship.weapon.fire_timer.elapsed_ms, 0);
}

#[test]
fn aim_update_keeps_stale_target() {
    let mut w = setup();
    update_mouse_position_system(&mut w, Some(Vec2i { x: 10, y: 20 }));
    assert_eq!(w.aim, Some(Vec2i { x: 10, y: 20 }));
    // Cursor outside the window: the previous target is retained.
    update_mouse_position_system(&mut w, None);
    assert_eq!(w.aim, Some(Vec2i { x: 10, y: 20 }));
}

// The boundary wrapper repositions the ship and asteroids inside a tick.
#[test]
fn tick_wraps_out_of_field_positions() {
    let mut w = setup();
    let mut rng = rng_from_seed(5);
    let none: Vec<CollisionPair> = Vec::new();
    world_tick(&mut w, idle_input(), 16, &none, &mut rng);
    w.asteroids[0].pos = Vec2i { x: 641, y: 100 };
    w.ship.pose.pos = Vec2i { x: 0, y: -361 };
    world_tick(&mut w, idle_input(), 16, &none, &mut rng);
    assert_eq!(w.asteroids[0].pos, Vec2i { x: -640, y: 100 });
    assert_eq!(w.ship.pose.pos, Vec2i { x: 0, y: 360 });
}
