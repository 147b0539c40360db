//! The simulated world and the ordered phases of one tick: aim update,
//! orientation, input interpretation, movement, weapon cooldown, projectile
//! spawning, collision resolution, fragmentation, asteroid spawning, aging
//! and boundary correction. The physics step between spawning and collision
//! resolution is the external engine's; its result enters a tick as the
//! list of colliding pairs.

use vstd::prelude::*;

use crate::asteroid::{
    asteroid_from_event, class_ring_count_spec, fragment_children, fragment_events_spec, wf_seed,
    wf_asteroid, wf_spawn_event, Asteroid, AsteroidClass, FragmentSeed, SpawnAsteroidEvent,
};
use crate::bounds::{reflect_position, reflect_position_spec};
use crate::collision::{resolve_all_spec, resolve_collision, CollisionPair};
use crate::geom::{wf_pose, wf_vec, Pose, Vec2i};
use crate::input::{proto_input, proto_input_spec, InputAction, InputState};
use crate::projectile::{
    age_lifetimes_spec, has_laser, laser_from_event, spawn_laser, update_lifetimes, wf_laser,
    Laser,
};
use crate::ship::{
    facing_toward_spec, look_at_mouse, movement, ship_after_intents, wf_ship,
    MovementAcceleration, MovementDampingFactor, Ship, ShipControllerBundle,
};
use crate::weapon::{timer_step, FireTimer, LaserWeaponBundle, RateOfFire, SpawnLaserEvent};
use crate::TICK_MS_LIMIT;

verus! {

/// The entity store of a play session: the one ship, the live projectiles
/// and asteroids, the queued asteroid spawn requests, the id counter, and
/// the aim target (absent until the cursor first enters the window).
#[derive(Debug)]
pub struct World {
    pub ship: Ship,
    pub lasers: Vec<Laser>,
    pub asteroids: Vec<Asteroid>,
    pub pending_asteroids: Vec<SpawnAsteroidEvent>,
    pub next_id: u64,
    pub aim: Option<Vec2i>,
}

/// The mathematical value of a world.
#[verifier::ext_equal]
pub struct WorldView {
    pub ship: Ship,
    pub lasers: Seq<Laser>,
    pub asteroids: Seq<Asteroid>,
    pub pending_asteroids: Seq<SpawnAsteroidEvent>,
    pub next_id: u64,
    pub aim: Option<Vec2i>,
}

impl View for World {
    type V = WorldView;

    open spec fn view(&self) -> WorldView {
        WorldView {
            ship: self.ship,
            lasers: self.lasers@,
            asteroids: self.asteroids@,
            pending_asteroids: self.pending_asteroids@,
            next_id: self.next_id,
            aim: self.aim,
        }
    }
}

/// Every identifier in the store is below the counter, so a fresh id can
/// never collide with a live entity or resurrect a removed one.
pub open spec fn ids_fresh(v: WorldView) -> bool {
    &&& v.ship.id < v.next_id
    &&& forall|i: int| 0 <= i < v.lasers.len() ==> (#[trigger] v.lasers[i]).id < v.next_id
    &&& forall|i: int| 0 <= i < v.asteroids.len() ==> (#[trigger] v.asteroids[i]).id < v.next_id
}

pub open spec fn wf_world(v: WorldView) -> bool {
    &&& wf_ship(v.ship)
    &&& forall|i: int| 0 <= i < v.lasers.len() ==> wf_laser(#[trigger] v.lasers[i])
    &&& forall|i: int| 0 <= i < v.asteroids.len() ==> wf_asteroid(#[trigger] v.asteroids[i])
    &&& forall|i: int|
        0 <= i < v.pending_asteroids.len() ==> wf_spawn_event(#[trigger] v.pending_asteroids[i])
    &&& (v.aim matches Some(t) ==> wf_vec(t))
    &&& ids_fresh(v)
}

/// Every live asteroid has at least one hit point.
pub open spec fn all_alive(v: WorldView) -> bool {
    forall|i: int| 0 <= i < v.asteroids.len() ==> (#[trigger] v.asteroids[i]).bundle.health.0 >= 1
}

/// The world a session starts with: the ship at the origin facing up, no
/// projectiles, and one queued request for a `Big` asteroid at (100, 100)
/// at rest.
pub open spec fn setup_spec() -> WorldView {
    WorldView {
        ship: Ship {
            id: 0,
            pose: Pose { pos: Vec2i { x: 0, y: 0 }, facing: Vec2i { x: 0, y: 1 } },
            linear_velocity: Vec2i { x: 0, y: 0 },
            controller: ShipControllerBundle {
                collider_radius: 40,
                acceleration: MovementAcceleration(1280),
                lineardamping: MovementDampingFactor(990),
            },
            weapon: LaserWeaponBundle {
                rate_of_fire: RateOfFire(60),
                fire_timer: FireTimer { elapsed_ms: 0, interval_ms: 500 },
            },
        },
        lasers: Seq::empty(),
        asteroids: Seq::empty(),
        pending_asteroids: seq![
            SpawnAsteroidEvent {
                origin: Vec2i { x: 100, y: 100 },
                class: AsteroidClass::Big,
                velocity: Vec2i { x: 0, y: 0 },
                angular: 0,
            },
        ],
        next_id: 1,
        aim: None,
    }
}

/// Creates the session's world.
pub fn setup() -> (w: World)
    ensures
        w@ == setup_spec(),
        wf_world(w@),
{
    let mut pending: Vec<SpawnAsteroidEvent> = Vec::new();
    pending.push(SpawnAsteroidEvent {
        origin: Vec2i { x: 100, y: 100 },
        class: AsteroidClass::Big,
        velocity: Vec2i { x: 0, y: 0 },
        angular: 0,
    });
    let w = World {
        ship: Ship {
            id: 0,
            pose: Pose { pos: Vec2i { x: 0, y: 0 }, facing: Vec2i { x: 0, y: 1 } },
            linear_velocity: Vec2i { x: 0, y: 0 },
            controller: ShipControllerBundle::default(),
            weapon: LaserWeaponBundle::default(),
        },
        lasers: Vec::new(),
        asteroids: Vec::new(),
        pending_asteroids: pending,
        next_id: 1,
        aim: None,
    };
    proof {
        assert(w@ =~= setup_spec());
    }
    w
}

/// The aim target after the aiming subsystem reads the cursor: a cursor
/// inside the window replaces the target; one outside leaves the previous
/// (possibly absent) target standing.
pub open spec fn spec_update_mouse(v: WorldView, cursor: Option<Vec2i>) -> WorldView {
    match cursor {
        Some(c) => WorldView { aim: Some(c), ..v },
        None => v,
    }
}

/// Recomputes the world-space aim target from this tick's cursor reading.
pub fn update_mouse_position_system(w: &mut World, cursor: Option<Vec2i>)
    requires
        wf_world(old(w)@),
        cursor matches Some(c) ==> wf_vec(c),
    ensures
        final(w)@ == spec_update_mouse(old(w)@, cursor),
        wf_world(final(w)@),
{
    match cursor {
        Some(c) => {
            w.aim = Some(c);
        },
        None => {},
    }
    proof {
        assert(w@ =~= spec_update_mouse(old(w)@, cursor));
    }
}

/// The world after look-at entities orient toward the aim target.
pub open spec fn spec_look_at(v: WorldView) -> WorldView {
    match v.aim {
        Some(t) => WorldView {
            ship: Ship {
                pose: Pose {
                    pos: v.ship.pose.pos,
                    facing: facing_toward_spec(v.ship.pose.pos, t, v.ship.pose.facing),
                },
                ..v.ship
            },
            ..v
        },
        None => v,
    }
}

/// The world after the tick's movement intents thrust the ship.
pub open spec fn spec_movement(v: WorldView, intents: Seq<InputAction>, dt: u64) -> WorldView {
    WorldView { ship: ship_after_intents(v.ship, intents, dt), ..v }
}

/// The world after the weapon timer ticks (and resets if a shot fires).
pub open spec fn spec_weapon_phase(v: WorldView, intents: Seq<InputAction>, dt: u64) -> WorldView {
    WorldView {
        ship: Ship {
            weapon: LaserWeaponBundle {
                fire_timer: timer_step(
                    v.ship.weapon.fire_timer,
                    dt,
                    crate::input::has_fire(intents),
                ),
                ..v.ship.weapon
            },
            ..v.ship
        },
        ..v
    }
}

/// The spawn requests the weapon phase emits: one, carrying the ship's
/// pose, exactly when a fire intent is present and the cooldown interval
/// has elapsed; never more than one per tick.
pub open spec fn weapon_events_spec(
    v: WorldView,
    intents: Seq<InputAction>,
    dt: u64,
) -> Seq<SpawnLaserEvent> {
    if crate::input::has_fire(intents) && v.ship.weapon.fire_timer.elapsed_ms + dt
        >= v.ship.weapon.fire_timer.interval_ms {
        seq![SpawnLaserEvent { origin: v.ship.pose }]
    } else {
        Seq::empty()
    }
}

/// Ticks the ship's weapon against this tick's intents and emits at most
/// one projectile spawn request.
pub fn update_weapons(w: &mut World, intents: &Vec<InputAction>, dt: u64) -> (events: Vec<
    SpawnLaserEvent,
>)
    requires
        wf_world(old(w)@),
        dt <= TICK_MS_LIMIT,
    ensures
        final(w)@ == spec_weapon_phase(old(w)@, intents@, dt),
        events@ == weapon_events_spec(old(w)@, intents@, dt),
        wf_world(final(w)@),
{
    let mut found = false;
    let mut i: usize = 0;
    while i < intents.len()
        invariant
            0 <= i <= intents@.len(),
            found == exists|k: int|
                0 <= k < i && #[trigger] intents@[k] == InputAction::Fire,
        decreases intents@.len() - i,
    {
        match intents[i] {
            InputAction::Fire => {
                found = true;
            },
            _ => {},
        }
        i += 1;
    }
    proof {
        assert(found == crate::input::has_fire(intents@));
    }
    let fired = crate::weapon::weapon_step(&mut w.ship.weapon.fire_timer, dt, found);
    let mut events: Vec<SpawnLaserEvent> = Vec::new();
    if fired {
        events.push(SpawnLaserEvent { origin: w.ship.pose });
    }
    proof {
        assert(w@ =~= spec_weapon_phase(old(w)@, intents@, dt));
        assert(events@ =~= weapon_events_spec(old(w)@, intents@, dt));
    }
    events
}

/// The world after the tick's projectile spawn requests are filled, each
/// under the next fresh identifier.
pub open spec fn spec_laser_spawner(v: WorldView, events: Seq<SpawnLaserEvent>) -> WorldView {
    WorldView {
        lasers: v.lasers + Seq::new(
            events.len(),
            |i: int| laser_from_event(events[i], (v.next_id + i) as u64),
        ),
        next_id: (v.next_id + events.len()) as u64,
        ..v
    }
}

/// Spawns a projectile body for every spawn request of this tick.
pub fn laser_spawner(w: &mut World, events: &Vec<SpawnLaserEvent>)
    requires
        wf_world(old(w)@),
        forall|i: int| 0 <= i < events@.len() ==> wf_pose((#[trigger] events@[i]).origin),
        old(w)@.next_id + events@.len() <= u64::MAX,
    ensures
        final(w)@ == spec_laser_spawner(old(w)@, events@),
        wf_world(final(w)@),
{
    let ghost orig = w@;
    let mut i: usize = 0;
    while i < events.len()
        invariant
            0 <= i <= events@.len(),
            forall|k: int| 0 <= k < events@.len() ==> wf_pose((#[trigger] events@[k]).origin),
            orig.next_id + events@.len() <= u64::MAX,
            w@.ship == orig.ship,
            w@.asteroids == orig.asteroids,
            w@.pending_asteroids == orig.pending_asteroids,
            w@.aim == orig.aim,
            w@.next_id == orig.next_id + i,
            w@.lasers == orig.lasers + Seq::new(
                i as nat,
                |k: int| laser_from_event(events@[k], (orig.next_id + k) as u64),
            ),
            wf_world(orig),
            wf_world(w@),
        decreases events@.len() - i,
    {
        let e = events[i];
        let l = spawn_laser(&e, w.next_id);
        w.lasers.push(l);
        w.next_id = w.next_id + 1;
        proof {
            assert(w@.lasers =~= orig.lasers + Seq::new(
                (i + 1) as nat,
                |k: int| laser_from_event(events@[k], (orig.next_id + k) as u64),
            ));
        }
        i += 1;
    }
    proof {
        assert(w@ =~= spec_laser_spawner(orig, events@));
    }
}

/// The world after this tick's colliding pairs are resolved.
pub open spec fn spec_collisions(v: WorldView, events: Seq<CollisionPair>) -> WorldView {
    WorldView {
        asteroids: resolve_all_spec(v.asteroids, v.lasers, v.ship.id, events).0,
        lasers: resolve_all_spec(v.asteroids, v.lasers, v.ship.id, events).1,
        ..v
    }
}

/// Consumes the physics engine's colliding pairs for this tick and applies
/// the resolution table to each, in order.
pub fn handle_collisions(w: &mut World, events: &Vec<CollisionPair>)
    requires
        wf_world(old(w)@),
    ensures
        final(w)@ == spec_collisions(old(w)@, events@),
        wf_world(final(w)@),
{
    let ghost orig = w@;
    let mut i: usize = 0;
    while i < events.len()
        invariant
            0 <= i <= events@.len(),
            w@.ship == orig.ship,
            w@.pending_asteroids == orig.pending_asteroids,
            w@.aim == orig.aim,
            w@.next_id == orig.next_id,
            w@.asteroids == resolve_all_spec(
                orig.asteroids,
                orig.lasers,
                orig.ship.id,
                events@.take(i as int),
            ).0,
            w@.lasers == resolve_all_spec(
                orig.asteroids,
                orig.lasers,
                orig.ship.id,
                events@.take(i as int),
            ).1,
            wf_world(orig),
            wf_world(w@),
        decreases events@.len() - i,
    {
        let ghost prev_a = w@.asteroids;
        let ghost prev_l = w@.lasers;
        let pair = events[i];
        let ship_id = w.ship.id;
        resolve_collision(&mut w.asteroids, &mut w.lasers, ship_id, pair);
        proof {
            assert(events@.take(i + 1).drop_last() =~= events@.take(i as int));
            assert(events@.take(i + 1).last() == events@[i as int]);
            assert forall|k: int| 0 <= k < w@.asteroids.len() implies (#[trigger] w@.asteroids[k]).id
                < w@.next_id by {
                let id = w@.asteroids[k].id;
                assert(crate::collision::has_asteroid(prev_a, id));
                let j = choose|j: int| 0 <= j < prev_a.len() && #[trigger] prev_a[j].id == id;
            }
            assert forall|k: int| 0 <= k < w@.lasers.len() implies (#[trigger] w@.lasers[k]).id
                < w@.next_id by {
                let id = w@.lasers[k].id;
                assert(has_laser(prev_l, id));
                let j = choose|j: int| 0 <= j < prev_l.len() && #[trigger] prev_l[j].id == id;
            }
        }
        i += 1;
    }
    proof {
        assert(events@.take(events@.len() as int) =~= events@);
        assert(w@ =~= spec_collisions(orig, events@));
    }
}

/// The asteroids that outlive this tick: those whose health is still
/// positive, in order.
pub open spec fn survivors_spec(s: Seq<Asteroid>) -> Seq<Asteroid>
    decreases s.len(),
{
    if s.len() == 0 {
        Seq::empty()
    } else {
        survivors_spec(s.drop_last()) + (if s.last().bundle.health.0 >= 1 {
            seq![s.last()]
        } else {
            Seq::empty()
        })
    }
}

/// The asteroids destroyed this tick: those whose health has reached zero
/// or below, in order.
pub open spec fn destroyed_spec(s: Seq<Asteroid>) -> Seq<Asteroid>
    decreases s.len(),
{
    if s.len() == 0 {
        Seq::empty()
    } else {
        destroyed_spec(s.drop_last()) + (if s.last().bundle.health.0 >= 1 {
            Seq::empty()
        } else {
            seq![s.last()]
        })
    }
}

/// One fragmentation seed per destroyed asteroid, each well-formed for its
/// parent's ring size.
pub open spec fn seeds_wf(parents: Seq<Asteroid>, seeds: Seq<FragmentSeed>) -> bool {
    &&& seeds.len() == parents.len()
    &&& forall|i: int|
        0 <= i < seeds.len() ==> wf_seed(
            #[trigger] seeds[i],
            class_ring_count_spec(parents[i].bundle.class),
        )
}

/// The spawn requests all destroyed asteroids emit, in order; a `Tiny`
/// parent emits none.
pub open spec fn frag_concat_spec(
    parents: Seq<Asteroid>,
    seeds: Seq<FragmentSeed>,
) -> Seq<SpawnAsteroidEvent>
    decreases parents.len(),
{
    if parents.len() == 0 {
        Seq::empty()
    } else {
        frag_concat_spec(parents.drop_last(), seeds.drop_last()) + (if parents.last().bundle.class
            == AsteroidClass::Tiny {
            Seq::empty()
        } else {
            fragment_events_spec(
                parents.last().pos,
                parents.last().bundle.linear_velocity,
                parents.last().bundle.class,
                seeds.last(),
            )
        })
    }
}

/// The world after the population manager culls destroyed asteroids and
/// queues their children.
pub open spec fn spec_fragmentation(v: WorldView, seeds: Seq<FragmentSeed>) -> WorldView {
    WorldView {
        asteroids: survivors_spec(v.asteroids),
        pending_asteroids: v.pending_asteroids + frag_concat_spec(destroyed_spec(v.asteroids), seeds),
        ..v
    }
}

/// No destroyed asteroid emits more than seven children.
pub proof fn lemma_frag_concat_len(parents: Seq<Asteroid>, seeds: Seq<FragmentSeed>)
    ensures
        frag_concat_spec(parents, seeds).len() <= 7 * parents.len(),
    decreases parents.len(),
{
    if parents.len() > 0 {
        lemma_frag_concat_len(parents.drop_last(), seeds.drop_last());
    }
}

pub proof fn lemma_destroyed_len(s: Seq<Asteroid>)
    ensures
        destroyed_spec(s).len() <= s.len(),
    decreases s.len(),
{
    if s.len() > 0 {
        lemma_destroyed_len(s.drop_last());
    }
}

/// Every surviving asteroid is alive: culling leaves only positive health.
pub proof fn lemma_survivors_alive(s: Seq<Asteroid>)
    ensures
        forall|i: int|
            0 <= i < survivors_spec(s).len() ==> (#[trigger] survivors_spec(s)[i]).bundle.health.0
                >= 1,
    decreases s.len(),
{
    if s.len() > 0 {
        lemma_survivors_alive(s.drop_last());
    }
}

/// Culls every asteroid whose health has reached zero or below and queues
/// the spawn requests of its children; the seeds actually drawn are
/// returned as a ghost witness, so the whole effect is the deterministic
/// fragmentation rule applied to them.
pub fn handle_destroyed_asteroids(w: &mut World, rng: &mut rand::rngs::StdRng) -> (seeds: Ghost<
    Seq<FragmentSeed>,
>)
    requires
        wf_world(old(w)@),
    ensures
        seeds_wf(destroyed_spec(old(w)@.asteroids), seeds@),
        final(w)@ == spec_fragmentation(old(w)@, seeds@),
        wf_world(final(w)@),
{
    let ghost orig = w@;
    let mut survivors: Vec<Asteroid> = Vec::new();
    let ghost mut seeds: Seq<FragmentSeed> = Seq::empty();
    let mut i: usize = 0;
    proof {
        assert(survivors@ =~= survivors_spec(orig.asteroids.take(0)));
        assert(seeds =~= Seq::<FragmentSeed>::empty());
        assert(destroyed_spec(orig.asteroids.take(0)) =~= Seq::<Asteroid>::empty());
        assert(w@.pending_asteroids =~= orig.pending_asteroids + frag_concat_spec(
            destroyed_spec(orig.asteroids.take(0)),
            seeds,
        ));
    }
    while i < w.asteroids.len()
        invariant
            0 <= i <= w@.asteroids.len(),
            w@.ship == orig.ship,
            w@.lasers == orig.lasers,
            w@.asteroids == orig.asteroids,
            w@.next_id == orig.next_id,
            w@.aim == orig.aim,
            wf_world(orig),
            survivors@ == survivors_spec(orig.asteroids.take(i as int)),
            forall|k: int| 0 <= k < survivors@.len() ==> wf_asteroid(#[trigger] survivors@[k]),
            forall|k: int| 0 <= k < survivors@.len() ==> (#[trigger] survivors@[k]).id < orig.next_id,
            seeds_wf(destroyed_spec(orig.asteroids.take(i as int)), seeds),
            w@.pending_asteroids == orig.pending_asteroids + frag_concat_spec(
                destroyed_spec(orig.asteroids.take(i as int)),
                seeds,
            ),
            forall|k: int|
                0 <= k < w@.pending_asteroids.len() ==> wf_spawn_event(
                    #[trigger] w@.pending_asteroids[k],
                ),
        decreases w@.asteroids.len() - i,
    {
        let a = w.asteroids[i];
        proof {
            assert(orig.asteroids.take(i + 1).drop_last() =~= orig.asteroids.take(i as int));
            assert(orig.asteroids.take(i + 1).last() == orig.asteroids[i as int]);
        }
        if a.bundle.health.0 >= 1 {
            proof {
                assert(survivors@.push(a) =~= survivors_spec(orig.asteroids.take(i + 1)));
                assert(destroyed_spec(orig.asteroids.take(i + 1)) =~= destroyed_spec(
                    orig.asteroids.take(i as int),
                ));
            }
            survivors.push(a);
        } else {
            let ghost prev_destroyed = destroyed_spec(orig.asteroids.take(i as int));
            let count = crate::asteroid::class_ring_count(a.bundle.class);
            let is_tiny = match a.bundle.class {
                AsteroidClass::Tiny => true,
                _ => false,
            };
            let seed = if is_tiny {
                crate::asteroid::FragmentSeed { angle_deg: 0, jitter: Vec::new() }
            } else {
                crate::rng::draw_fragment_seed(rng, count)
            };
            proof {
                assert(wf_seed(seed, class_ring_count_spec(a.bundle.class)));
                assert(destroyed_spec(orig.asteroids.take(i + 1)) =~= prev_destroyed.push(a));
                assert(prev_destroyed.push(a).drop_last() =~= prev_destroyed);
                assert(seeds.push(seed).drop_last() =~= seeds);
            }
            if !is_tiny {
                let mut events = fragment_children(&a, &seed);
                proof {
                    assert(frag_concat_spec(prev_destroyed.push(a), seeds.push(seed))
                        =~= frag_concat_spec(prev_destroyed, seeds) + events@);
                }
                w.pending_asteroids.append(&mut events);
            } else {
                proof {
                    assert(frag_concat_spec(prev_destroyed.push(a), seeds.push(seed))
                        =~= frag_concat_spec(prev_destroyed, seeds));
                }
            }
            proof {
                seeds = seeds.push(seed);
                assert(seeds_wf(destroyed_spec(orig.asteroids.take(i + 1)), seeds));
            }
        }
        i += 1;
    }
    proof {
        assert(orig.asteroids.take(orig.asteroids.len() as int) =~= orig.asteroids);
    }
    w.asteroids = survivors;
    proof {
        assert(w@ =~= spec_fragmentation(orig, seeds));
    }
    Ghost(seeds)
}

/// The world after the queued spawn requests are filled, each under the
/// next fresh identifier, and the queue is drained.
pub open spec fn spec_asteroid_spawner(v: WorldView) -> WorldView {
    WorldView {
        asteroids: v.asteroids + Seq::new(
            v.pending_asteroids.len(),
            |i: int| asteroid_from_event(v.pending_asteroids[i], (v.next_id + i) as u64),
        ),
        pending_asteroids: Seq::empty(),
        next_id: (v.next_id + v.pending_asteroids.len()) as u64,
        ..v
    }
}

/// Drains the spawn queue, instantiating one asteroid per request.
pub fn asteroid_spawner(w: &mut World)
    requires
        wf_world(old(w)@),
        old(w)@.next_id + old(w)@.pending_asteroids.len() <= u64::MAX,
    ensures
        final(w)@ == spec_asteroid_spawner(old(w)@),
        wf_world(final(w)@),
{
    let ghost orig = w@;
    let mut i: usize = 0;
    while i < w.pending_asteroids.len()
        invariant
            0 <= i <= w@.pending_asteroids.len(),
            w@.ship == orig.ship,
            w@.lasers == orig.lasers,
            w@.pending_asteroids == orig.pending_asteroids,
            w@.aim == orig.aim,
            orig.next_id + orig.pending_asteroids.len() <= u64::MAX,
            w@.next_id == orig.next_id + i,
            w@.asteroids == orig.asteroids + Seq::new(
                i as nat,
                |k: int| asteroid_from_event(orig.pending_asteroids[k], (orig.next_id + k) as u64),
            ),
            wf_world(orig),
            wf_world(w@),
        decreases w@.pending_asteroids.len() - i,
    {
        let e = w.pending_asteroids[i];
        crate::asteroid::AsteroidBundle::spawn(&e, w);
        proof {
            assert(w@.asteroids =~= orig.asteroids + Seq::new(
                (i + 1) as nat,
                |k: int| asteroid_from_event(orig.pending_asteroids[k], (orig.next_id + k) as u64),
            ));
        }
        i += 1;
    }
    w.pending_asteroids = Vec::new();
    proof {
        assert(w@ =~= spec_asteroid_spawner(orig));
    }
}

/// The world after the boundary wrapper repositions the ship and every
/// asteroid that has left the play field. Projectiles are not wrapped;
/// their time-to-live removes them.
pub open spec fn spec_wrapper(v: WorldView) -> WorldView {
    WorldView {
        ship: Ship {
            pose: Pose { pos: reflect_position_spec(v.ship.pose.pos), ..v.ship.pose },
            ..v.ship
        },
        asteroids: Seq::new(
            v.asteroids.len(),
            |i: int| Asteroid { pos: reflect_position_spec(v.asteroids[i].pos), ..v.asteroids[i] },
        ),
        ..v
    }
}

/// Repositions the ship and the asteroids that have crossed the play-field
/// boundary.
pub fn wrapper(w: &mut World)
    requires
        wf_world(old(w)@),
    ensures
        final(w)@ == spec_wrapper(old(w)@),
        wf_world(final(w)@),
{
    let ghost orig = w@;
    w.ship.pose.pos = reflect_position(w.ship.pose.pos);
    let mut out: Vec<Asteroid> = Vec::new();
    let mut i: usize = 0;
    while i < w.asteroids.len()
        invariant
            0 <= i <= w@.asteroids.len(),
            w@.asteroids == orig.asteroids,
            w@.lasers == orig.lasers,
            w@.pending_asteroids == orig.pending_asteroids,
            w@.next_id == orig.next_id,
            w@.aim == orig.aim,
            w@.ship == (Ship {
                pose: Pose { pos: reflect_position_spec(orig.ship.pose.pos), ..orig.ship.pose },
                ..orig.ship
            }),
            wf_ship(w@.ship),
            wf_world(orig),
            out@.len() == i,
            forall|k: int|
                0 <= k < i ==> out@[k] == (Asteroid {
                    pos: reflect_position_spec(orig.asteroids[k].pos),
                    ..orig.asteroids[k]
                }),
            forall|k: int| 0 <= k < i ==> wf_asteroid(#[trigger] out@[k]),
        decreases w@.asteroids.len() - i,
    {
        let a = w.asteroids[i];
        let moved = Asteroid { pos: reflect_position(a.pos), ..a };
        out.push(moved);
        i += 1;
    }
    w.asteroids = out;
    proof {
        assert(w@ =~= spec_wrapper(orig));
        assert forall|k: int| 0 <= k < w@.asteroids.len() implies (#[trigger] w@.asteroids[k]).id
            < w@.next_id by {
            assert(w@.asteroids[k] == spec_wrapper(orig).asteroids[k]);
            assert(w@.asteroids[k].id == orig.asteroids[k].id);
        }
    }
}

/// The world just before fragmentation: aim, orientation, intents,
/// movement, weapons, projectile spawning and collision resolution applied
/// in phase order.
pub open spec fn spec_tick_pre_frag(
    v: WorldView,
    input: InputState,
    dt: u64,
    collisions: Seq<CollisionPair>,
) -> WorldView {
    let v1 = spec_update_mouse(v, input.cursor);
    let v2 = spec_look_at(v1);
    let intents = proto_input_spec(input.left, input.right, input.up, input.down, input.fire);
    let v3 = spec_movement(v2, intents, dt);
    let v4 = spec_weapon_phase(v3, intents, dt);
    let laser_events = weapon_events_spec(v3, intents, dt);
    let v5 = spec_laser_spawner(v4, laser_events);
    spec_collisions(v5, collisions)
}

/// The world after one whole tick, given the seeds fragmentation drew: the
/// phases before fragmentation, then culling and queueing, then spawning,
/// then projectile aging, then the boundary wrapper.
pub open spec fn spec_world_tick(
    v: WorldView,
    input: InputState,
    dt: u64,
    collisions: Seq<CollisionPair>,
    seeds: Seq<FragmentSeed>,
) -> WorldView {
    let v6 = spec_tick_pre_frag(v, input, dt, collisions);
    let v7 = spec_fragmentation(v6, seeds);
    let v8 = spec_asteroid_spawner(v7);
    let v9 = WorldView { lasers: age_lifetimes_spec(v8.lasers, dt), ..v8 };
    spec_wrapper(v9)
}

/// A projectile never flickers: an identifier absent from the world — and
/// below the id counter, as every removed projectile's is — is still absent
/// after a whole tick, whatever the inputs, collisions and seeds. Together
/// with the aging rule (present exactly while time-to-live remains) a
/// projectile is present in an unbroken run of ticks and absent ever after.
pub proof fn lemma_projectile_no_flicker(
    v: WorldView,
    input: InputState,
    dt: u64,
    collisions: Seq<CollisionPair>,
    seeds: Seq<FragmentSeed>,
    id: u64,
)
    requires
        wf_world(v),
        id < v.next_id,
        !has_laser(v.lasers, id),
        v.next_id + 1 <= u64::MAX,
    ensures
        !has_laser(spec_world_tick(v, input, dt, collisions, seeds).lasers, id),
{
    let v1 = spec_update_mouse(v, input.cursor);
    let v2 = spec_look_at(v1);
    let intents = proto_input_spec(input.left, input.right, input.up, input.down, input.fire);
    let v3 = spec_movement(v2, intents, dt);
    let v4 = spec_weapon_phase(v3, intents, dt);
    let laser_events = weapon_events_spec(v3, intents, dt);
    let v5 = spec_laser_spawner(v4, laser_events);
    assert(!has_laser(v5.lasers, id)) by {
        if has_laser(v5.lasers, id) {
            let i = choose|i: int| 0 <= i < v5.lasers.len() && #[trigger] v5.lasers[i].id == id;
            if i < v.lasers.len() {
                assert(v.lasers[i].id == id);
            } else {
                assert(v5.lasers[i] == laser_from_event(
                    laser_events[i - v.lasers.len()],
                    (v4.next_id + (i - v.lasers.len())) as u64,
                ));
            }
        }
    }
    let v6 = spec_collisions(v5, collisions);
    assert(!has_laser(v6.lasers, id)) by {
        if has_laser(v6.lasers, id) {
            crate::collision::lemma_resolve_all_laser_membership(
                v5.asteroids,
                v5.lasers,
                v5.ship.id,
                collisions,
                id,
            );
        }
    }
    let v7 = spec_fragmentation(v6, seeds);
    let v8 = spec_asteroid_spawner(v7);
    let aged = age_lifetimes_spec(v8.lasers, dt);
    assert(!has_laser(aged, id)) by {
        crate::projectile::lemma_ttl_presence(v8.lasers, dt, id);
        if has_laser(aged, id) {
            let i = choose|i: int|
                0 <= i < v8.lasers.len() && #[trigger] v8.lasers[i].id == id
                    && crate::projectile::laser_survives(v8.lasers[i], dt);
            assert(has_laser(v8.lasers, id));
        }
    }
}

/// One simulation tick. The caller supplies the raw input state, the tick
/// length, the colliding pairs the external physics step reported, and the
/// seedable generator fragmentation draws from. Everything except the
/// drawn seeds is deterministic, and the seeds actually drawn are returned
/// as a ghost witness: the new world is exactly the deterministic tick
/// function applied to them.
pub fn world_tick(
    w: &mut World,
    input: InputState,
    dt: u64,
    collisions: &Vec<CollisionPair>,
    rng: &mut rand::rngs::StdRng,
) -> (seeds: Ghost<Seq<FragmentSeed>>)
    requires
        wf_world(old(w)@),
        dt <= TICK_MS_LIMIT,
        input.cursor matches Some(c) ==> wf_vec(c),
        old(w)@.next_id + 1 + old(w)@.pending_asteroids.len() + 7 * old(w)@.asteroids.len()
            <= u64::MAX,
    ensures
        seeds_wf(
            destroyed_spec(spec_tick_pre_frag(old(w)@, input, dt, collisions@).asteroids),
            seeds@,
        ),
        final(w)@ == spec_world_tick(old(w)@, input, dt, collisions@, seeds@),
        wf_world(final(w)@),
        all_alive(final(w)@),
{
    let ghost v0 = w@;
    update_mouse_position_system(w, input.cursor);
    let ghost v1 = w@;
    look_at_mouse(&mut w.ship, w.aim);
    proof {
        assert(w@ =~= spec_look_at(v1));
    }
    let ghost v2 = w@;
    let intents = proto_input(input.left, input.right, input.up, input.down, input.fire);
    movement(&mut w.ship, &intents, dt);
    proof {
        assert(w@ =~= spec_movement(v2, intents@, dt));
        crate::ship::lemma_ship_after_intents_frame(v2.ship, intents@, dt);
    }
    let ghost v3 = w@;
    let laser_events = update_weapons(w, &intents, dt);
    let ghost v4 = w@;
    laser_spawner(w, &laser_events);
    let ghost v5 = w@;
    handle_collisions(w, collisions);
    let ghost v6 = w@;
    proof {
        assert(v6 == spec_tick_pre_frag(v0, input, dt, collisions@));
    }
    let seeds = handle_destroyed_asteroids(w, rng);
    let ghost v7 = w@;
    proof {
        lemma_destroyed_len(v6.asteroids);
        lemma_frag_concat_len(destroyed_spec(v6.asteroids), seeds@);
        crate::collision::lemma_resolve_all_asteroids_len(
            v5.asteroids,
            v5.lasers,
            v5.ship.id,
            collisions@,
        );
        assert(v6.asteroids.len() == v0.asteroids.len());
        assert(w@.next_id + w@.pending_asteroids.len() <= u64::MAX);
    }
    asteroid_spawner(w);
    let ghost v8 = w@;
    update_lifetimes(&mut w.lasers, dt);
    proof {
        assert(w@ =~= (WorldView { lasers: age_lifetimes_spec(v8.lasers, dt), ..v8 }));
        assert forall|k: int| 0 <= k < w@.lasers.len() implies (#[trigger] w@.lasers[k]).id
            < w@.next_id by {
            let id = w@.lasers[k].id;
            assert(has_laser(v8.lasers, id));
            let j = choose|j: int| 0 <= j < v8.lasers.len() && #[trigger] v8.lasers[j].id == id;
        }
    }
    proof {
        lemma_survivors_alive(v6.asteroids);
        assert forall|k: int| 0 <= k < v8.asteroids.len() implies (#[trigger] v8.asteroids[k])
            .bundle.health.0 >= 1 by {
            let survived = survivors_spec(v6.asteroids);
            if k < survived.len() {
                assert(v8.asteroids[k] == survived[k]);
            } else {
                assert(v8.asteroids[k] == asteroid_from_event(
                    v7.pending_asteroids[k - survived.len()],
                    (v7.next_id + (k - survived.len())) as u64,
                ));
            }
        }
    }
    wrapper(w);
    proof {
        assert(w@ == spec_world_tick(v0, input, dt, collisions@, seeds@));
        assert forall|k: int| 0 <= k < w@.asteroids.len() implies (#[trigger] w@.asteroids[k])
            .bundle.health.0 >= 1 by {
            assert(w@.asteroids[k].bundle == v8.asteroids[k].bundle);
        }
    }
    seeds
}

} // verus!
