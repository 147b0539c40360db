//! Asteroids: size classes, the per-class table of health, visual scale and
//! collider radius, spawn events, and the fragmentation rule that a destroyed
//! asteroid applies to produce its children.

use vstd::prelude::*;

use crate::geom::{
    clamp_add, clamp_spec, in_range, ring_point, ring_point_spec, wf_vec, Vec2i, STEP_LIMIT,
};

verus! {

/// Size tier of an asteroid, ordered from largest to smallest. `Tiny` is
/// terminal: destroying it produces no children.
#[derive(Clone, Copy, PartialEq, Eq, Structural, Debug)]
pub enum AsteroidClass {
    Big,
    Medium,
    Small,
    Tiny,
}

/// Hit points an asteroid of each class starts with.
pub open spec fn class_health_spec(c: AsteroidClass) -> i8 {
    match c {
        AsteroidClass::Big => 5,
        AsteroidClass::Medium => 4,
        AsteroidClass::Small => 3,
        AsteroidClass::Tiny => 2,
    }
}

pub fn class_health(c: AsteroidClass) -> (h: i8)
    ensures
        h == class_health_spec(c),
{
    match c {
        AsteroidClass::Big => 5,
        AsteroidClass::Medium => 4,
        AsteroidClass::Small => 3,
        AsteroidClass::Tiny => 2,
    }
}

/// Visual scale of each class, in tenths of a unit.
pub open spec fn class_scale_tenths_spec(c: AsteroidClass) -> i64 {
    match c {
        AsteroidClass::Big => 20,
        AsteroidClass::Medium => 15,
        AsteroidClass::Small => 10,
        AsteroidClass::Tiny => 10,
    }
}

pub fn class_scale_tenths(c: AsteroidClass) -> (s: i64)
    ensures
        s == class_scale_tenths_spec(c),
{
    match c {
        AsteroidClass::Big => 20,
        AsteroidClass::Medium => 15,
        AsteroidClass::Small => 10,
        AsteroidClass::Tiny => 10,
    }
}

/// Collider radius of each class, in world units.
pub open spec fn class_collider_spec(c: AsteroidClass) -> i64 {
    match c {
        AsteroidClass::Big => 50,
        AsteroidClass::Medium => 22,
        AsteroidClass::Small => 15,
        AsteroidClass::Tiny => 6,
    }
}

pub fn class_collider(c: AsteroidClass) -> (r: i64)
    ensures
        r == class_collider_spec(c),
{
    match c {
        AsteroidClass::Big => 50,
        AsteroidClass::Medium => 22,
        AsteroidClass::Small => 15,
        AsteroidClass::Tiny => 6,
    }
}

/// How many ring children a destroyed asteroid of each class scatters
/// around itself. A destroyed `Big` additionally leaves one child at its
/// own position.
pub open spec fn class_ring_count_spec(c: AsteroidClass) -> int {
    match c {
        AsteroidClass::Big => 6,
        AsteroidClass::Medium => 3,
        AsteroidClass::Small => 4,
        AsteroidClass::Tiny => 0,
    }
}

pub fn class_ring_count(c: AsteroidClass) -> (n: usize)
    ensures
        n == class_ring_count_spec(c),
{
    match c {
        AsteroidClass::Big => 6,
        AsteroidClass::Medium => 3,
        AsteroidClass::Small => 4,
        AsteroidClass::Tiny => 0,
    }
}

/// Even angular step between ring children, in degrees: a full turn divided
/// by the ring count.
pub open spec fn class_ring_step_spec(c: AsteroidClass) -> i64 {
    match c {
        AsteroidClass::Big => 60,
        AsteroidClass::Medium => 120,
        AsteroidClass::Small => 90,
        AsteroidClass::Tiny => 0,
    }
}

pub fn class_ring_step(c: AsteroidClass) -> (s: i64)
    ensures
        s == class_ring_step_spec(c),
{
    match c {
        AsteroidClass::Big => 60,
        AsteroidClass::Medium => 120,
        AsteroidClass::Small => 90,
        AsteroidClass::Tiny => 0,
    }
}

/// Distance from the parent at which ring children appear.
pub open spec fn class_ring_radius_spec(c: AsteroidClass) -> i64 {
    match c {
        AsteroidClass::Big => 68,
        AsteroidClass::Medium => 20,
        AsteroidClass::Small => 10,
        AsteroidClass::Tiny => 0,
    }
}

pub fn class_ring_radius(c: AsteroidClass) -> (r: i64)
    ensures
        r == class_ring_radius_spec(c),
{
    match c {
        AsteroidClass::Big => 68,
        AsteroidClass::Medium => 20,
        AsteroidClass::Small => 10,
        AsteroidClass::Tiny => 0,
    }
}

/// Class of the children a destroyed asteroid fragments into: one tier
/// smaller. Meaningful only for classes above `Tiny`.
pub open spec fn class_child_spec(c: AsteroidClass) -> AsteroidClass {
    match c {
        AsteroidClass::Big => AsteroidClass::Medium,
        AsteroidClass::Medium => AsteroidClass::Small,
        AsteroidClass::Small => AsteroidClass::Tiny,
        AsteroidClass::Tiny => AsteroidClass::Tiny,
    }
}

pub fn class_child(c: AsteroidClass) -> (r: AsteroidClass)
    ensures
        r == class_child_spec(c),
{
    match c {
        AsteroidClass::Big => AsteroidClass::Medium,
        AsteroidClass::Medium => AsteroidClass::Small,
        AsteroidClass::Small => AsteroidClass::Tiny,
        AsteroidClass::Tiny => AsteroidClass::Tiny,
    }
}

/// Remaining hit points of a live asteroid.
#[derive(Clone, Copy, PartialEq, Eq, Structural, Debug)]
pub struct AsteroidHealth(pub i8);

/// A request to add one asteroid to the world: where, which class, and with
/// what linear and angular velocity. `angular` is in thousandths of a turn
/// unit per second.
#[derive(Clone, Copy, PartialEq, Eq, Structural, Debug)]
pub struct SpawnAsteroidEvent {
    pub origin: Vec2i,
    pub class: AsteroidClass,
    pub velocity: Vec2i,
    pub angular: i64,
}

pub open spec fn wf_spawn_event(e: SpawnAsteroidEvent) -> bool {
    &&& wf_vec(e.origin)
    &&& wf_vec(e.velocity)
    &&& -STEP_LIMIT <= e.angular <= STEP_LIMIT
}

/// The gameplay components of an asteroid entity.
#[derive(Clone, Copy, PartialEq, Eq, Structural, Debug)]
pub struct AsteroidBundle {
    pub collider_radius: i64,
    pub scale_tenths: i64,
    pub linear_velocity: Vec2i,
    pub health: AsteroidHealth,
    pub class: AsteroidClass,
    pub angular_velocity: i64,
}

impl Default for AsteroidBundle {
    /// A freshly seeded `Big` asteroid at rest.
    fn default() -> (b: Self)
        ensures
            b.collider_radius == 50,
            b.scale_tenths == 20,
            b.linear_velocity == (Vec2i { x: 0, y: 0 }),
            b.health == (AsteroidHealth(5)),
            b.class == AsteroidClass::Big,
            b.angular_velocity == 0,
    {
        AsteroidBundle {
            collider_radius: 50,
            scale_tenths: 20,
            linear_velocity: Vec2i { x: 0, y: 0 },
            health: AsteroidHealth(5),
            class: AsteroidClass::Big,
            angular_velocity: 0,
        }
    }
}

/// An asteroid entity in the world: its identifier, position and components.
#[derive(Clone, Copy, PartialEq, Eq, Structural, Debug)]
pub struct Asteroid {
    pub id: u64,
    pub pos: Vec2i,
    pub bundle: AsteroidBundle,
}

pub open spec fn wf_asteroid(a: Asteroid) -> bool {
    &&& wf_vec(a.pos)
    &&& wf_vec(a.bundle.linear_velocity)
    &&& -STEP_LIMIT <= a.bundle.angular_velocity <= STEP_LIMIT
}

/// The asteroid an event instantiates under a given identifier: class-specific
/// collider, scale and starting health, with the event's placement and motion.
pub open spec fn asteroid_from_event(e: SpawnAsteroidEvent, id: u64) -> Asteroid {
    Asteroid {
        id,
        pos: e.origin,
        bundle: AsteroidBundle {
            collider_radius: class_collider_spec(e.class),
            scale_tenths: class_scale_tenths_spec(e.class),
            linear_velocity: e.velocity,
            health: AsteroidHealth(class_health_spec(e.class)),
            class: e.class,
            angular_velocity: e.angular,
        },
    }
}

impl AsteroidBundle {
    /// Instantiates the asteroid a spawn request asks for — class-specific
    /// collider, scale and starting health at the requested placement and
    /// motion — under the store's next fresh identifier.
    pub fn spawn(event: &SpawnAsteroidEvent, store: &mut crate::world::World)
        requires
            crate::world::wf_world(old(store)@),
            wf_spawn_event(*event),
            old(store)@.next_id < u64::MAX,
        ensures
            final(store)@.asteroids == old(store)@.asteroids.push(
                asteroid_from_event(*event, old(store)@.next_id),
            ),
            final(store)@.next_id == old(store)@.next_id + 1,
            final(store)@.ship == old(store)@.ship,
            final(store)@.lasers == old(store)@.lasers,
            final(store)@.pending_asteroids == old(store)@.pending_asteroids,
            final(store)@.aim == old(store)@.aim,
            crate::world::wf_world(final(store)@),
    {
        let a = Asteroid {
            id: store.next_id,
            pos: event.origin,
            bundle: AsteroidBundle {
                collider_radius: class_collider(event.class),
                scale_tenths: class_scale_tenths(event.class),
                linear_velocity: event.velocity,
                health: AsteroidHealth(class_health(event.class)),
                class: event.class,
                angular_velocity: event.angular,
            },
        };
        store.asteroids.push(a);
        store.next_id = store.next_id + 1;
    }
}

/// The random draws one fragmentation event consumes for one ring child:
/// a velocity jitter per axis and an angular velocity.
#[derive(Clone, Copy, PartialEq, Eq, Structural, Debug)]
pub struct ChildJitter {
    pub vel_x: i64,
    pub vel_y: i64,
    pub spin: i64,
}

/// Velocity jitter range for fragment children, per axis.
pub const JITTER_LIMIT: i64 = 45;

/// Angular velocity range for fragment children, in thousandths.
pub const SPIN_LIMIT: i64 = 5000;

pub open spec fn wf_jitter(j: ChildJitter) -> bool {
    &&& -JITTER_LIMIT <= j.vel_x <= JITTER_LIMIT
    &&& -JITTER_LIMIT <= j.vel_y <= JITTER_LIMIT
    &&& -SPIN_LIMIT <= j.spin <= SPIN_LIMIT
}

/// All random draws of one fragmentation event: one angular offset shared by
/// the ring, and one jitter per ring child.
#[derive(Clone, PartialEq, Eq, Debug)]
pub struct FragmentSeed {
    pub angle_deg: i64,
    pub jitter: Vec<ChildJitter>,
}

pub open spec fn wf_seed(s: FragmentSeed, n: int) -> bool {
    &&& 0 <= s.angle_deg < 360
    &&& s.jitter@.len() == n
    &&& forall|i: int| 0 <= i < n ==> wf_jitter(#[trigger] s.jitter@[i])
}

/// The child a destroyed `Big` asteroid leaves at its own position: one
/// `Medium` at rest.
pub open spec fn center_child_event(p: Vec2i) -> SpawnAsteroidEvent {
    SpawnAsteroidEvent {
        origin: p,
        class: AsteroidClass::Medium,
        velocity: Vec2i { x: 0, y: 0 },
        angular: 0,
    }
}

/// Ring child number `i` (0-based) of a destroyed asteroid at `p` moving
/// with `v`: placed at the shared random offset plus `i + 1` even steps
/// around the parent at the class ring radius, moving with the parent's
/// velocity plus this child's jitter, spinning with this child's draw.
pub open spec fn ring_child_event(
    p: Vec2i,
    v: Vec2i,
    c: AsteroidClass,
    s: FragmentSeed,
    i: int,
) -> SpawnAsteroidEvent
    recommends
        0 <= i < class_ring_count_spec(c),
        wf_seed(s, class_ring_count_spec(c)),
{
    let angle = (s.angle_deg + (i + 1) * class_ring_step_spec(c)) % 360;
    SpawnAsteroidEvent {
        origin: ring_point_spec(p, class_ring_radius_spec(c) as int, angle),
        class: class_child_spec(c),
        velocity: Vec2i {
            x: clamp_spec(v.x + s.jitter@[i].vel_x) as i64,
            y: clamp_spec(v.y + s.jitter@[i].vel_y) as i64,
        },
        angular: s.jitter@[i].spin,
    }
}

/// Every spawn request a destroyed asteroid of class `c` emits, in order:
/// for `Big`, the center child first, then the ring; for `Medium` and
/// `Small`, the ring alone; for `Tiny`, nothing.
pub open spec fn fragment_events_spec(
    p: Vec2i,
    v: Vec2i,
    c: AsteroidClass,
    s: FragmentSeed,
) -> Seq<SpawnAsteroidEvent>
    recommends
        wf_seed(s, class_ring_count_spec(c)),
{
    let ring = Seq::new(
        class_ring_count_spec(c) as nat,
        |i: int| ring_child_event(p, v, c, s, i),
    );
    if c == AsteroidClass::Big {
        seq![center_child_event(p)] + ring
    } else {
        ring
    }
}

/// The children a destroyed asteroid fragments into, as spawn requests.
/// The count and every child's class are fixed by the parent's class alone;
/// placement and motion are fixed by the parent and the seed.
pub fn fragment_children(parent: &Asteroid, seed: &FragmentSeed) -> (r: Vec<SpawnAsteroidEvent>)
    requires
        wf_asteroid(*parent),
        wf_seed(*seed, class_ring_count_spec(parent.bundle.class)),
    ensures
        r@ == fragment_events_spec(
            parent.pos,
            parent.bundle.linear_velocity,
            parent.bundle.class,
            *seed,
        ),
        r@.len() == class_ring_count_spec(parent.bundle.class)
            + if parent.bundle.class == AsteroidClass::Big { 1int } else { 0int },
        forall|i: int| 0 <= i < r@.len() ==> wf_spawn_event(#[trigger] r@[i]),
        forall|i: int| 0 <= i < r@.len() ==> (#[trigger] r@[i]).class == class_child_spec(
            parent.bundle.class,
        ),
{
    let ghost full = fragment_events_spec(
        parent.pos,
        parent.bundle.linear_velocity,
        parent.bundle.class,
        *seed,
    );
    let mut out: Vec<SpawnAsteroidEvent> = Vec::new();
    let is_big = match parent.bundle.class {
        AsteroidClass::Big => true,
        _ => false,
    };
    let ghost base: int = if is_big { 1int } else { 0int };
    if is_big {
        out.push(SpawnAsteroidEvent {
            origin: parent.pos,
            class: AsteroidClass::Medium,
            velocity: Vec2i { x: 0, y: 0 },
            angular: 0,
        });
    }
    let count = class_ring_count(parent.bundle.class);
    let step = class_ring_step(parent.bundle.class);
    let radius = class_ring_radius(parent.bundle.class);
    let child = class_child(parent.bundle.class);
    proof {
        assert(out@ =~= full.take(base));
    }
    let mut i: usize = 0;
    while i < count
        invariant
            0 <= i <= count,
            count == class_ring_count_spec(parent.bundle.class),
            step == class_ring_step_spec(parent.bundle.class),
            radius == class_ring_radius_spec(parent.bundle.class),
            child == class_child_spec(parent.bundle.class),
            base == if parent.bundle.class == AsteroidClass::Big { 1int } else { 0int },
            wf_asteroid(*parent),
            wf_seed(*seed, class_ring_count_spec(parent.bundle.class)),
            full == fragment_events_spec(
                parent.pos,
                parent.bundle.linear_velocity,
                parent.bundle.class,
                *seed,
            ),
            out@.len() == base + i,
            out@ == full.take(base + i),
            forall|k: int| 0 <= k < out@.len() ==> wf_spawn_event(#[trigger] out@[k]),
        decreases count - i,
    {
        let j = seed.jitter[i];
        let angle = (seed.angle_deg + (i as i64 + 1) * step) % 360;
        let origin = ring_point(parent.pos, radius, angle);
        let velocity = Vec2i {
            x: clamp_add(parent.bundle.linear_velocity.x, j.vel_x),
            y: clamp_add(parent.bundle.linear_velocity.y, j.vel_y),
        };
        let e = SpawnAsteroidEvent { origin, class: child, velocity, angular: j.spin };
        proof {
            assert(e == ring_child_event(
                parent.pos,
                parent.bundle.linear_velocity,
                parent.bundle.class,
                *seed,
                i as int,
            ));
            assert(full[base + i] == ring_child_event(
                parent.pos,
                parent.bundle.linear_velocity,
                parent.bundle.class,
                *seed,
                i as int,
            ));
            assert(out@.push(e) =~= full.take(base + i + 1));
        }
        out.push(e);
        i += 1;
    }
    proof {
        assert(out@ =~= full);
    }
    out
}

} // verus!
