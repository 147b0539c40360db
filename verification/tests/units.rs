//! Component-level checks: input interpretation, cooldown accounting,
//! projectile lifetimes, fragmentation counts and placement, collision
//! resolution, boundary reflection, and the integer geometry they rest on.

use survive::asteroid::{
    class_child, class_collider, class_health, class_ring_count, class_ring_radius,
    class_ring_step, class_scale_tenths, fragment_children, Asteroid, AsteroidBundle,
    AsteroidClass, AsteroidHealth, ChildJitter, FragmentSeed, SpawnAsteroidEvent,
};
use survive::bounds::{reflect_axis, reflect_position};
use survive::collision::{classify, resolve_collision, CollisionPair, EntityTypes};
use survive::geom::{isqrt, muldiv, scale_tri, tri_cos, tri_sin, Pose, Vec2i};
use survive::input::{grab_mouse_decision, proto_input, InputAction};
use survive::projectile::{
    laser_velocity, spawn_laser, update_lifetimes, Laser, LaserBoltBundle, Lifetime,
};
use survive::rng::{draw_fragment_seed, gen_range_i64, rng_from_seed};
use survive::ship::{
    movement, MovementAcceleration, MovementDampingFactor, Ship, ShipControllerBundle,
};
use survive::weapon::{weapon_step, FireTimer, LaserWeaponBundle, RateOfFire, SpawnLaserEvent};

fn test_ship() -> Ship {
    Ship {
        id: 0,
        pose: Pose { pos: Vec2i { x: 0, y: 0 }, facing: Vec2i { x: 0, y: 1 } },
        linear_velocity: Vec2i { x: 0, y: 0 },
        controller: ShipControllerBundle::default(),
        weapon: LaserWeaponBundle::default(),
    }
}

// Opposed input pairs cancel to exactly zero on each axis.
#[test]
fn opposed_inputs_cancel() {
    // left+right held together: horizontal axis is 0, so no Move intent.
    let intents = proto_input(true, true, false, false, false);
    assert_eq!(intents.len(), 0);
    // up+down held together cancel too.
    let intents = proto_input(false, false, true, true, false);
    assert_eq!(intents.len(), 0);
    // all four held: both axes cancel.
    let intents = proto_input(true, true, true, true, false);
    assert_eq!(intents.len(), 0);
}

#[test]
fn single_keys_give_unit_axes() {
    let intents = proto_input(true, false, false, false, false);
    assert_eq!(intents.len(), 1);
    assert!(matches!(intents[0], InputAction::Move(Vec2i { x: -1, y: 0 })));
    let intents = proto_input(false, true, true, false, false);
    assert!(matches!(intents[0], InputAction::Move(Vec2i { x: 1, y: 1 })));
    let intents = proto_input(false, false, false, true, true);
    assert!(matches!(intents[0], InputAction::Move(Vec2i { x: 0, y: -1 })));
    assert!(matches!(intents[1], InputAction::Fire));
}

#[test]
fn fire_key_alone_gives_fire_intent() {
    let intents = proto_input(false, false, false, false, true);
    assert_eq!(intents.len(), 1);
    assert!(matches!(intents[0], InputAction::Fire));
}

#[test]
fn grab_decision_escape_wins() {
    assert_eq!(grab_mouse_decision(true, false), Some(true));
    assert_eq!(grab_mouse_decision(false, true), Some(false));
    assert_eq!(grab_mouse_decision(true, true), Some(false));
    assert_eq!(grab_mouse_decision(false, false), None);
}

// Weapon cooldown: intents faster than the interval yield exactly
// floor(elapsed / interval) spawns from a cold start.
#[test]
fn cooldown_exact_rate_from_cold_start() {
    let mut t = FireTimer { elapsed_ms: 0, interval_ms: 500 };
    let mut spawns = 0;
    for _ in 0..20 {
        if weapon_step(&mut t, 100, true) {
            spawns += 1;
        }
    }
    // 2000 ms of fire held: exactly 2000 / 500 = 4 shots.
    assert_eq!(spawns, 4);
}

// A weapon that starts ready fires immediately: the extra "+1" shot.
#[test]
fn cooldown_ready_start_fires_at_once() {
    let mut t = FireTimer { elapsed_ms: 500, interval_ms: 500 };
    assert!(weapon_step(&mut t, 0, true));
    assert_eq!(t.elapsed_ms, 0);
    // And immediately after, it cannot fire again within the interval.
    assert!(!weapon_step(&mut t, 499, true));
    assert!(weapon_step(&mut t, 1, true));
}

// Never more: overshoot on each reset only loses progress.
#[test]
fn cooldown_never_exceeds_elapsed_over_interval() {
    let mut t = FireTimer { elapsed_ms: 0, interval_ms: 500 };
    let mut spawns: u64 = 0;
    let mut total: u64 = 0;
    for _ in 0..10 {
        total += 499;
        if weapon_step(&mut t, 499, true) {
            spawns += 1;
        }
    }
    assert!(spawns <= total / 500);
    assert_eq!(spawns, 5);
}

#[test]
fn cooldown_ticks_without_fire_intent() {
    let mut t = FireTimer { elapsed_ms: 0, interval_ms: 500 };
    // The timer must advance even when no fire intent arrives.
    assert!(!weapon_step(&mut t, 600, false));
    assert_eq!(t.elapsed_ms, 500);
    // The next held tick fires at once.
    assert!(weapon_step(&mut t, 0, true));
}

#[test]
fn weapon_bundle_default_values() {
    let w = LaserWeaponBundle::default();
    assert_eq!(w.rate_of_fire, RateOfFire(60));
    assert_eq!(w.fire_timer, FireTimer { elapsed_ms: 0, interval_ms: 500 });
}

// Projectile TTL: present every tick until expiry, absent at and after it.
#[test]
fn projectile_ttl_exact_expiry() {
    let e = SpawnLaserEvent {
        origin: Pose { pos: Vec2i { x: 0, y: 0 }, facing: Vec2i { x: 0, y: 1 } },
    };
    let mut lasers = vec![spawn_laser(&e, 7)];
    // 49 ticks of 100 ms: 4900 ms elapsed, still alive every tick.
    for _ in 0..49 {
        update_lifetimes(&mut lasers, 100);
        assert_eq!(lasers.len(), 1);
        assert_eq!(lasers[0].id, 7);
    }
    // The tick that reaches 5000 ms removes it.
    update_lifetimes(&mut lasers, 100);
    assert_eq!(lasers.len(), 0);
    // And it stays absent.
    update_lifetimes(&mut lasers, 100);
    assert_eq!(lasers.len(), 0);
}

#[test]
fn laser_bolt_default_values() {
    let b = LaserBoltBundle::default();
    assert_eq!(b.linear_velocity, Vec2i { x: 0, y: 0 });
    assert_eq!(b.lifetime, Lifetime { elapsed_ms: 0, ttl_ms: 5000 });
}

#[test]
fn laser_velocity_is_speed_along_facing() {
    // A 3-4-5 facing scales exactly to length 500.
    let v = laser_velocity(Vec2i { x: 3, y: 4 });
    assert_eq!(v, Vec2i { x: 300, y: 400 });
    // Straight up.
    let v = laser_velocity(Vec2i { x: 0, y: 1 });
    assert_eq!(v, Vec2i { x: 0, y: 500 });
    // Negative components keep their sign.
    let v = laser_velocity(Vec2i { x: -3, y: -4 });
    assert_eq!(v, Vec2i { x: -300, y: -400 });
}

fn seed_for(class: AsteroidClass, angle: i64) -> FragmentSeed {
    let n = class_ring_count(class);
    FragmentSeed {
        angle_deg: angle,
        jitter: vec![ChildJitter { vel_x: 0, vel_y: 0, spin: 0 }; n],
    }
}

fn asteroid_of(class: AsteroidClass, pos: Vec2i, vel: Vec2i, id: u64) -> Asteroid {
    let e = SpawnAsteroidEvent { origin: pos, class, velocity: vel, angular: 0 };
    let mut b = AsteroidBundle::default();
    b.collider_radius = class_collider(class);
    b.scale_tenths = class_scale_tenths(class);
    b.linear_velocity = e.velocity;
    b.health = AsteroidHealth(class_health(class));
    b.class = class;
    Asteroid { id, pos, bundle: b }
}

// Fragmentation counts are exact and deterministic.
#[test]
fn fragmentation_counts_per_class() {
    let big = asteroid_of(AsteroidClass::Big, Vec2i { x: 0, y: 0 }, Vec2i { x: 0, y: 0 }, 1);
    let children = fragment_children(&big, &seed_for(AsteroidClass::Big, 0));
    assert_eq!(children.len(), 7);
    // Center child first: a Medium at the parent's position, at rest.
    assert_eq!(children[0].class, AsteroidClass::Medium);
    assert_eq!(children[0].origin, Vec2i { x: 0, y: 0 });
    assert_eq!(children[0].velocity, Vec2i { x: 0, y: 0 });
    for c in &children {
        assert_eq!(c.class, AsteroidClass::Medium);
    }

    let med = asteroid_of(AsteroidClass::Medium, Vec2i { x: 5, y: 5 }, Vec2i { x: 1, y: 2 }, 2);
    let children = fragment_children(&med, &seed_for(AsteroidClass::Medium, 10));
    assert_eq!(children.len(), 3);
    for c in &children {
        assert_eq!(c.class, AsteroidClass::Small);
        // With zero jitter each child inherits the parent's velocity.
        assert_eq!(c.velocity, Vec2i { x: 1, y: 2 });
    }

    let small = asteroid_of(AsteroidClass::Small, Vec2i { x: 0, y: 0 }, Vec2i { x: 0, y: 0 }, 3);
    let children = fragment_children(&small, &seed_for(AsteroidClass::Small, 45));
    assert_eq!(children.len(), 4);
    for c in &children {
        assert_eq!(c.class, AsteroidClass::Tiny);
    }

    let tiny = asteroid_of(AsteroidClass::Tiny, Vec2i { x: 0, y: 0 }, Vec2i { x: 0, y: 0 }, 4);
    let children = fragment_children(&tiny, &seed_for(AsteroidClass::Tiny, 0));
    assert_eq!(children.len(), 0);
}

#[test]
fn fragmentation_is_deterministic() {
    let big = asteroid_of(AsteroidClass::Big, Vec2i { x: 9, y: -3 }, Vec2i { x: 4, y: 4 }, 1);
    let seed = FragmentSeed {
        angle_deg: 123,
        jitter: vec![
            ChildJitter { vel_x: -45, vel_y: 45, spin: -5000 },
            ChildJitter { vel_x: 1, vel_y: 2, spin: 3 },
            ChildJitter { vel_x: 0, vel_y: 0, spin: 0 },
            ChildJitter { vel_x: 44, vel_y: -44, spin: 4999 },
            ChildJitter { vel_x: 10, vel_y: 10, spin: 10 },
            ChildJitter { vel_x: -1, vel_y: -2, spin: -3 },
        ],
    };
    let a = fragment_children(&big, &seed);
    let b = fragment_children(&big, &seed);
    assert_eq!(a, b);
}

#[test]
fn fragmentation_ring_placement_exact() {
    // Big parent at the origin with ring offset 0: the first ring child sits
    // at angle 60 degrees, i.e. offset (-68*60/90, 68*30/90) = (-45, 22).
    let big = asteroid_of(AsteroidClass::Big, Vec2i { x: 0, y: 0 }, Vec2i { x: 0, y: 0 }, 1);
    let children = fragment_children(&big, &seed_for(AsteroidClass::Big, 0));
    assert_eq!(children[1].origin, Vec2i { x: -45, y: 22 });
    // The fourth ring child is at 240 degrees: sin = -60, cos = -30.
    assert_eq!(children[4].origin, Vec2i { x: 45, y: -22 });
}

#[test]
fn class_table_values() {
    assert_eq!(class_health(AsteroidClass::Big), 5);
    assert_eq!(class_health(AsteroidClass::Medium), 4);
    assert_eq!(class_health(AsteroidClass::Small), 3);
    assert_eq!(class_health(AsteroidClass::Tiny), 2);
    assert_eq!(class_collider(AsteroidClass::Big), 50);
    assert_eq!(class_collider(AsteroidClass::Medium), 22);
    assert_eq!(class_collider(AsteroidClass::Small), 15);
    assert_eq!(class_collider(AsteroidClass::Tiny), 6);
    assert_eq!(class_scale_tenths(AsteroidClass::Big), 20);
    assert_eq!(class_scale_tenths(AsteroidClass::Medium), 15);
    assert_eq!(class_scale_tenths(AsteroidClass::Small), 10);
    assert_eq!(class_scale_tenths(AsteroidClass::Tiny), 10);
    assert_eq!(class_ring_count(AsteroidClass::Big), 6);
    assert_eq!(class_ring_count(AsteroidClass::Medium), 3);
    assert_eq!(class_ring_count(AsteroidClass::Small), 4);
    assert_eq!(class_ring_count(AsteroidClass::Tiny), 0);
    assert_eq!(class_ring_radius(AsteroidClass::Big), 68);
    assert_eq!(class_ring_radius(AsteroidClass::Medium), 20);
    assert_eq!(class_ring_radius(AsteroidClass::Small), 10);
    assert_eq!(class_ring_step(AsteroidClass::Big), 60);
    assert_eq!(class_ring_step(AsteroidClass::Medium), 120);
    assert_eq!(class_ring_step(AsteroidClass::Small), 90);
    assert_eq!(class_child(AsteroidClass::Big), AsteroidClass::Medium);
    assert_eq!(class_child(AsteroidClass::Medium), AsteroidClass::Small);
    assert_eq!(class_child(AsteroidClass::Small), AsteroidClass::Tiny);
}

#[test]
fn asteroid_bundle_default_is_big_at_rest() {
    let b = AsteroidBundle::default();
    assert_eq!(b.class, AsteroidClass::Big);
    assert_eq!(b.health, AsteroidHealth(5));
    assert_eq!(b.collider_radius, 50);
    assert_eq!(b.scale_tenths, 20);
    assert_eq!(b.linear_velocity, Vec2i { x: 0, y: 0 });
    assert_eq!(b.angular_velocity, 0);
}

#[test]
fn ship_controller_default_values() {
    let c = ShipControllerBundle::default();
    assert_eq!(c.collider_radius, 40);
    assert_eq!(c.acceleration, MovementAcceleration(1280));
    assert_eq!(c.lineardamping, MovementDampingFactor(990));
}

// Collision resolution is symmetric for every defined pair type.
#[test]
fn collision_resolution_symmetric() {
    let ast = vec![asteroid_of(AsteroidClass::Big, Vec2i { x: 0, y: 0 }, Vec2i { x: 0, y: 0 }, 1)];
    let las = vec![Laser {
        id: 2,
        pos: Vec2i { x: 0, y: 0 },
        bolt: LaserBoltBundle::default(),
    }];

    let mut a1 = ast.clone();
    let mut l1 = las.clone();
    resolve_collision(&mut a1, &mut l1, 0, CollisionPair { entity1: 1, entity2: 2 });

    let mut a2 = ast.clone();
    let mut l2 = las.clone();
    resolve_collision(&mut a2, &mut l2, 0, CollisionPair { entity1: 2, entity2: 1 });

    assert_eq!(a1, a2);
    assert_eq!(l1, l2);
    // And the effect itself: projectile despawned, one hit booked.
    assert_eq!(l1.len(), 0);
    assert_eq!(a1[0].bundle.health, AsteroidHealth(4));
}

#[test]
fn collision_ignores_unknown_and_ship_pairs() {
    let ast = vec![asteroid_of(AsteroidClass::Big, Vec2i { x: 0, y: 0 }, Vec2i { x: 0, y: 0 }, 1)];
    let las: Vec<Laser> = Vec::new();

    // Asteroid-ship: no effect defined.
    let mut a = ast.clone();
    let mut l = las.clone();
    resolve_collision(&mut a, &mut l, 9, CollisionPair { entity1: 1, entity2: 9 });
    assert_eq!(a[0].bundle.health, AsteroidHealth(5));

    // Unknown partner: ignored.
    let mut a = ast.clone();
    let mut l = las.clone();
    resolve_collision(&mut a, &mut l, 9, CollisionPair { entity1: 1, entity2: 77 });
    assert_eq!(a[0].bundle.health, AsteroidHealth(5));
}

#[test]
fn classification_order_and_roles() {
    let ast = vec![asteroid_of(AsteroidClass::Big, Vec2i { x: 0, y: 0 }, Vec2i { x: 0, y: 0 }, 1)];
    let las = vec![Laser { id: 2, pos: Vec2i { x: 0, y: 0 }, bolt: LaserBoltBundle::default() }];
    assert_eq!(classify(&ast, &las, 3, 1), EntityTypes::Asteroid);
    assert_eq!(classify(&ast, &las, 3, 2), EntityTypes::Laser);
    assert_eq!(classify(&ast, &las, 3, 3), EntityTypes::Ship);
    assert_eq!(classify(&ast, &las, 3, 4), EntityTypes::Unknown);
}

// Boundary reflection: strict inequality, so the boundary itself is at rest.
#[test]
fn boundary_exact_is_not_reflected() {
    assert_eq!(reflect_axis(640, 640), 640);
    assert_eq!(reflect_axis(-640, 640), -640);
    assert_eq!(reflect_axis(360, 360), 360);
    assert_eq!(reflect_axis(-360, 360), -360);
    let p = Vec2i { x: 640, y: -360 };
    assert_eq!(reflect_position(p), p);
    let q = Vec2i { x: 0, y: 0 };
    assert_eq!(reflect_position(q), q);
}

#[test]
fn boundary_reflects_just_past_edge() {
    // One unit over: reflected to the far side with the unit offset.
    assert_eq!(reflect_axis(641, 640), -640);
    assert_eq!(reflect_axis(-641, 640), 640);
    // Far over the high side, the low-side re-check of the same pass sees
    // the reflected value and pulls it back in by the two unit offsets.
    assert_eq!(reflect_axis(400, 360), 398);
    assert_eq!(
        reflect_position(Vec2i { x: 700, y: 0 }),
        Vec2i { x: 698, y: 0 }
    );
}

#[test]
fn movement_accumulates_thrust() {
    let mut ship = test_ship();
    // 1280 units/s^2 over a full second: velocity gains 1280 on the held axis.
    let intents = vec![InputAction::Move(Vec2i { x: 1, y: 0 })];
    movement(&mut ship, &intents, 1000);
    assert_eq!(ship.linear_velocity, Vec2i { x: 1280, y: 0 });
    // Half a second adds half the impulse; two intents in one tick both apply.
    let intents = vec![
        InputAction::Move(Vec2i { x: 0, y: -1 }),
        InputAction::Move(Vec2i { x: 0, y: -1 }),
    ];
    movement(&mut ship, &intents, 500);
    assert_eq!(ship.linear_velocity, Vec2i { x: 1280, y: -1280 });
    // Fire intents do not move the ship.
    let intents = vec![InputAction::Fire];
    movement(&mut ship, &intents, 1000);
    assert_eq!(ship.linear_velocity, Vec2i { x: 1280, y: -1280 });
}

#[test]
fn geometry_integer_sqrt() {
    assert_eq!(isqrt(0), 0);
    assert_eq!(isqrt(1), 1);
    assert_eq!(isqrt(2), 1);
    assert_eq!(isqrt(3), 1);
    assert_eq!(isqrt(4), 2);
    assert_eq!(isqrt(24), 4);
    assert_eq!(isqrt(25), 5);
    assert_eq!(isqrt(2_000_000_000_000), 1_414_213);
}

#[test]
fn geometry_circle_model() {
    assert_eq!(tri_sin(0), 0);
    assert_eq!(tri_sin(90), 90);
    assert_eq!(tri_sin(180), 0);
    assert_eq!(tri_sin(270), -90);
    assert_eq!(tri_cos(0), 90);
    assert_eq!(tri_cos(90), 0);
    assert_eq!(tri_cos(180), -90);
    assert_eq!(tri_cos(270), 0);
    assert_eq!(scale_tri(68, 60), 45);
    assert_eq!(scale_tri(68, -60), -45);
    assert_eq!(muldiv(-3, 500, 5), -300);
}

// The rand wrappers through public functions: every draw is in range, a
// degenerate range is pinned, and a fixed seed reproduces the draws.
#[test]
fn rng_draws_stay_in_range() {
    let mut rng = rng_from_seed(42);
    assert_eq!(gen_range_i64(&mut rng, 5, 5), 5);
    for _ in 0..50 {
        let s = draw_fragment_seed(&mut rng, 6);
        assert!(0 <= s.angle_deg && s.angle_deg < 360);
        assert_eq!(s.jitter.len(), 6);
        for j in &s.jitter {
            assert!(-45 <= j.vel_x && j.vel_x <= 45);
            assert!(-45 <= j.vel_y && j.vel_y <= 45);
            assert!(-5000 <= j.spin && j.spin <= 5000);
        }
    }
}

#[test]
fn rng_seed_reproduces_draws() {
    let mut a = rng_from_seed(7);
    let mut b = rng_from_seed(7);
    for _ in 0..10 {
        assert_eq!(draw_fragment_seed(&mut a, 4), draw_fragment_seed(&mut b, 4));
    }
}
