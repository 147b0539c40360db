//! The collision resolver: raw colliding-pair events from the physics
//! engine are classified by entity role and resolved by a fixed,
//! order-independent table. An asteroid–projectile contact despawns the
//! projectile and costs the asteroid one hit point; every other pair is
//! left to the physics engine or ignored.

use vstd::prelude::*;

use crate::asteroid::{wf_asteroid, Asteroid, AsteroidHealth};
use crate::projectile::{has_laser, wf_laser, Laser};

verus! {

/// The role an entity identifier plays in collision resolution.
#[derive(Clone, Copy, PartialEq, Eq, Structural, Debug)]
pub enum EntityTypes {
    Asteroid,
    Laser,
    Ship,
    Unknown,
}

/// One colliding pair reported by the physics engine for this tick.
#[derive(Clone, Copy, PartialEq, Eq, Structural, Debug)]
pub struct CollisionPair {
    pub entity1: u64,
    pub entity2: u64,
}

/// Whether an asteroid with the given identifier is present.
pub open spec fn has_asteroid(s: Seq<Asteroid>, id: u64) -> bool {
    exists|i: int| 0 <= i < s.len() && #[trigger] s[i].id == id
}

pub fn contains_asteroid(asteroids: &Vec<Asteroid>, id: u64) -> (b: bool)
    ensures
        b == has_asteroid(asteroids@, id),
{
    let mut i: usize = 0;
    while i < asteroids.len()
        invariant
            0 <= i <= asteroids@.len(),
            forall|k: int| 0 <= k < i ==> #[trigger] asteroids@[k].id != id,
        decreases asteroids@.len() - i,
    {
        if asteroids[i].id == id {
            return true;
        }
        i += 1;
    }
    false
}

pub fn contains_laser(lasers: &Vec<Laser>, id: u64) -> (b: bool)
    ensures
        b == has_laser(lasers@, id),
{
    let mut i: usize = 0;
    while i < lasers.len()
        invariant
            0 <= i <= lasers@.len(),
            forall|k: int| 0 <= k < i ==> #[trigger] lasers@[k].id != id,
        decreases lasers@.len() - i,
    {
        if lasers[i].id == id {
            return true;
        }
        i += 1;
    }
    false
}

/// Classification of one side of a pair, asteroid check first, then
/// projectile, then the ship, else unknown.
pub open spec fn classify_spec(
    asteroids: Seq<Asteroid>,
    lasers: Seq<Laser>,
    ship_id: u64,
    id: u64,
) -> EntityTypes {
    if has_asteroid(asteroids, id) {
        EntityTypes::Asteroid
    } else if has_laser(lasers, id) {
        EntityTypes::Laser
    } else if id == ship_id {
        EntityTypes::Ship
    } else {
        EntityTypes::Unknown
    }
}

pub fn classify(asteroids: &Vec<Asteroid>, lasers: &Vec<Laser>, ship_id: u64, id: u64) -> (t:
    EntityTypes)
    ensures
        t == classify_spec(asteroids@, lasers@, ship_id, id),
{
    if contains_asteroid(asteroids, id) {
        EntityTypes::Asteroid
    } else if contains_laser(lasers, id) {
        EntityTypes::Laser
    } else if id == ship_id {
        EntityTypes::Ship
    } else {
        EntityTypes::Unknown
    }
}

/// The asteroid after a hit is booked against `id`: one hit point fewer if
/// this is the asteroid struck (with the machine floor of its counter),
/// untouched otherwise.
pub open spec fn hit_one_spec(a: Asteroid, id: u64) -> Asteroid {
    if a.id == id && a.bundle.health.0 > i8::MIN {
        Asteroid {
            bundle: crate::asteroid::AsteroidBundle {
                health: AsteroidHealth((a.bundle.health.0 - 1) as i8),
                ..a.bundle
            },
            ..a
        }
    } else {
        a
    }
}

/// The population after a hit on `id`: the struck asteroid loses one hit
/// point; an absent identifier changes nothing.
pub open spec fn hit_asteroid_spec(s: Seq<Asteroid>, id: u64) -> Seq<Asteroid> {
    Seq::new(s.len(), |i: int| hit_one_spec(s[i], id))
}

pub fn hit_asteroid(asteroids: &mut Vec<Asteroid>, id: u64)
    requires
        forall|i: int| 0 <= i < old(asteroids)@.len() ==> wf_asteroid(#[trigger] old(asteroids)@[i]),
    ensures
        final(asteroids)@ == hit_asteroid_spec(old(asteroids)@, id),
        forall|i: int|
            0 <= i < final(asteroids)@.len() ==> wf_asteroid(#[trigger] final(asteroids)@[i]),
        final(asteroids)@.len() == old(asteroids)@.len(),
        forall|i: int|
            0 <= i < final(asteroids)@.len() ==> (#[trigger] final(asteroids)@[i]).id == old(
                asteroids,
            )@[i].id,
{
    let ghost orig = asteroids@;
    let mut out: Vec<Asteroid> = Vec::new();
    let mut i: usize = 0;
    while i < asteroids.len()
        invariant
            0 <= i <= asteroids@.len(),
            asteroids@ == orig,
            forall|k: int| 0 <= k < orig.len() ==> wf_asteroid(#[trigger] orig[k]),
            out@.len() == i,
            forall|k: int| 0 <= k < i ==> out@[k] == hit_one_spec(orig[k], id),
            forall|k: int| 0 <= k < i ==> wf_asteroid(#[trigger] out@[k]),
        decreases asteroids@.len() - i,
    {
        let a = asteroids[i];
        if a.id == id && a.bundle.health.0 > i8::MIN {
            let mut b = a;
            b.bundle.health = AsteroidHealth(a.bundle.health.0 - 1);
            out.push(b);
        } else {
            out.push(a);
        }
        i += 1;
    }
    proof {
        assert(out@ =~= hit_asteroid_spec(orig, id));
    }
    *asteroids = out;
}

/// The projectiles with `id` removed, order kept.
pub open spec fn remove_laser_spec(s: Seq<Laser>, id: u64) -> Seq<Laser>
    decreases s.len(),
{
    if s.len() == 0 {
        Seq::empty()
    } else {
        remove_laser_spec(s.drop_last(), id) + (if s.last().id == id {
            Seq::empty()
        } else {
            seq![s.last()]
        })
    }
}

pub fn remove_laser(lasers: &mut Vec<Laser>, id: u64)
    requires
        forall|i: int| 0 <= i < old(lasers)@.len() ==> wf_laser(#[trigger] old(lasers)@[i]),
    ensures
        final(lasers)@ == remove_laser_spec(old(lasers)@, id),
        forall|i: int| 0 <= i < final(lasers)@.len() ==> wf_laser(#[trigger] final(lasers)@[i]),
        forall|i: int|
            0 <= i < final(lasers)@.len() ==> has_laser(
                old(lasers)@,
                (#[trigger] final(lasers)@[i]).id,
            ),
{
    let ghost orig = lasers@;
    let mut out: Vec<Laser> = Vec::new();
    let mut i: usize = 0;
    proof {
        assert(out@ =~= remove_laser_spec(orig.take(0), id));
    }
    while i < lasers.len()
        invariant
            0 <= i <= lasers@.len(),
            lasers@ == orig,
            forall|k: int| 0 <= k < orig.len() ==> wf_laser(#[trigger] orig[k]),
            out@ == remove_laser_spec(orig.take(i as int), id),
            forall|k: int| 0 <= k < out@.len() ==> wf_laser(#[trigger] out@[k]),
            forall|k: int| 0 <= k < out@.len() ==> has_laser(orig, (#[trigger] out@[k]).id),
        decreases lasers@.len() - i,
    {
        let l = lasers[i];
        proof {
            assert(orig.take(i + 1).drop_last() =~= orig.take(i as int));
            assert(orig.take(i + 1).last() == orig[i as int]);
        }
        if l.id != id {
            proof {
                assert(out@.push(l) =~= remove_laser_spec(orig.take(i + 1), id));
                assert(orig[i as int].id == l.id);
                assert(has_laser(orig, l.id));
            }
            out.push(l);
        } else {
            proof {
                assert(out@ =~= remove_laser_spec(orig.take(i + 1), id));
            }
        }
        i += 1;
    }
    proof {
        assert(orig.take(orig.len() as int) =~= orig);
    }
    *lasers = out;
}

/// The whole resolution table for one pair, as the asteroid and projectile
/// populations it leaves behind. Asteroid–asteroid contacts bounce in the
/// physics engine; asteroid–ship contacts have no defined effect; a pair
/// with an unknown side is ignored.
pub open spec fn resolve_spec(
    asteroids: Seq<Asteroid>,
    lasers: Seq<Laser>,
    ship_id: u64,
    a: u64,
    b: u64,
) -> (Seq<Asteroid>, Seq<Laser>) {
    let ta = classify_spec(asteroids, lasers, ship_id, a);
    let tb = classify_spec(asteroids, lasers, ship_id, b);
    if ta == EntityTypes::Asteroid && tb == EntityTypes::Laser {
        (hit_asteroid_spec(asteroids, a), remove_laser_spec(lasers, b))
    } else if ta == EntityTypes::Laser && tb == EntityTypes::Asteroid {
        (hit_asteroid_spec(asteroids, b), remove_laser_spec(lasers, a))
    } else {
        (asteroids, lasers)
    }
}

/// The populations after a tick's colliding pairs are resolved in order.
pub open spec fn resolve_all_spec(
    asteroids: Seq<Asteroid>,
    lasers: Seq<Laser>,
    ship_id: u64,
    events: Seq<CollisionPair>,
) -> (Seq<Asteroid>, Seq<Laser>)
    decreases events.len(),
{
    if events.len() == 0 {
        (asteroids, lasers)
    } else {
        let prev = resolve_all_spec(asteroids, lasers, ship_id, events.drop_last());
        resolve_spec(prev.0, prev.1, ship_id, events.last().entity1, events.last().entity2)
    }
}

/// Removal only removes: a projectile identifier present after a removal
/// was present before it.
pub proof fn lemma_remove_laser_membership(s: Seq<Laser>, id: u64, q: u64)
    requires
        has_laser(remove_laser_spec(s, id), q),
    ensures
        has_laser(s, q),
    decreases s.len(),
{
    if s.len() > 0 {
        let rest = remove_laser_spec(s.drop_last(), id);
        let whole = remove_laser_spec(s, id);
        let i = choose|i: int| 0 <= i < whole.len() && #[trigger] whole[i].id == q;
        if i < rest.len() {
            lemma_remove_laser_membership(s.drop_last(), id, q);
            let j = choose|j: int|
                0 <= j < s.drop_last().len() && #[trigger] s.drop_last()[j].id == q;
            assert(s[j].id == q);
        } else {
            assert(whole[i] == s.last());
            assert(s[s.len() - 1].id == q);
        }
    }
}

/// Resolution never introduces projectiles: an identifier present after a
/// tick's pairs are resolved was present before them.
pub proof fn lemma_resolve_all_laser_membership(
    asteroids: Seq<Asteroid>,
    lasers: Seq<Laser>,
    ship_id: u64,
    events: Seq<CollisionPair>,
    q: u64,
)
    requires
        has_laser(resolve_all_spec(asteroids, lasers, ship_id, events).1, q),
    ensures
        has_laser(lasers, q),
    decreases events.len(),
{
    if events.len() > 0 {
        let prev = resolve_all_spec(asteroids, lasers, ship_id, events.drop_last());
        let last = events.last();
        let after = resolve_spec(prev.0, prev.1, ship_id, last.entity1, last.entity2);
        if after.1 != prev.1 {
            if after.1 == remove_laser_spec(prev.1, last.entity2) {
                lemma_remove_laser_membership(prev.1, last.entity2, q);
            } else {
                lemma_remove_laser_membership(prev.1, last.entity1, q);
            }
        }
        lemma_resolve_all_laser_membership(asteroids, lasers, ship_id, events.drop_last(), q);
    }
}

/// Resolution never adds or removes asteroids; it only books hits.
pub proof fn lemma_resolve_all_asteroids_len(
    asteroids: Seq<Asteroid>,
    lasers: Seq<Laser>,
    ship_id: u64,
    events: Seq<CollisionPair>,
)
    ensures
        resolve_all_spec(asteroids, lasers, ship_id, events).0.len() == asteroids.len(),
    decreases events.len(),
{
    if events.len() > 0 {
        lemma_resolve_all_asteroids_len(asteroids, lasers, ship_id, events.drop_last());
    }
}

/// Resolves one colliding pair against the current populations.
pub fn resolve_collision(
    asteroids: &mut Vec<Asteroid>,
    lasers: &mut Vec<Laser>,
    ship_id: u64,
    pair: CollisionPair,
)
    requires
        forall|i: int| 0 <= i < old(asteroids)@.len() ==> wf_asteroid(#[trigger] old(asteroids)@[i]),
        forall|i: int| 0 <= i < old(lasers)@.len() ==> wf_laser(#[trigger] old(lasers)@[i]),
    ensures
        final(asteroids)@ == resolve_spec(
            old(asteroids)@,
            old(lasers)@,
            ship_id,
            pair.entity1,
            pair.entity2,
        ).0,
        final(lasers)@ == resolve_spec(
            old(asteroids)@,
            old(lasers)@,
            ship_id,
            pair.entity1,
            pair.entity2,
        ).1,
        forall|i: int|
            0 <= i < final(asteroids)@.len() ==> wf_asteroid(#[trigger] final(asteroids)@[i]),
        forall|i: int| 0 <= i < final(lasers)@.len() ==> wf_laser(#[trigger] final(lasers)@[i]),
        forall|i: int|
            0 <= i < final(asteroids)@.len() ==> has_asteroid(
                old(asteroids)@,
                (#[trigger] final(asteroids)@[i]).id,
            ),
        forall|i: int|
            0 <= i < final(lasers)@.len() ==> has_laser(
                old(lasers)@,
                (#[trigger] final(lasers)@[i]).id,
            ),
{
    let ghost oa = asteroids@;
    let ghost ol = lasers@;
    let ta = classify(asteroids, lasers, ship_id, pair.entity1);
    let tb = classify(asteroids, lasers, ship_id, pair.entity2);
    match (ta, tb) {
        (EntityTypes::Asteroid, EntityTypes::Laser) => {
            remove_laser(lasers, pair.entity2);
            hit_asteroid(asteroids, pair.entity1);
        },
        (EntityTypes::Laser, EntityTypes::Asteroid) => {
            remove_laser(lasers, pair.entity1);
            hit_asteroid(asteroids, pair.entity2);
        },
        _ => {},
    }
    proof {
        assert forall|i: int| 0 <= i < asteroids@.len() implies has_asteroid(
            oa,
            (#[trigger] asteroids@[i]).id,
        ) by {
            assert(asteroids@[i].id == oa[i].id);
        }
    }
}

/// Collision resolution is symmetric: resolving a pair one way round leaves
/// exactly the populations that resolving it the other way round leaves,
/// for every pair of identifiers and every defined pair type.
pub proof fn lemma_collision_symmetric(
    asteroids: Seq<Asteroid>,
    lasers: Seq<Laser>,
    ship_id: u64,
    a: u64,
    b: u64,
)
    ensures
        resolve_spec(asteroids, lasers, ship_id, a, b) == resolve_spec(
            asteroids,
            lasers,
            ship_id,
            b,
            a,
        ),
{
}

} // verus!
