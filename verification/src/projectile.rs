//! Projectiles: spawned from a weapon's origin at a fixed speed along the
//! firing entity's facing, aged every tick, and removed once their fixed
//! time-to-live elapses.

use vstd::prelude::*;

use crate::geom::{
    in_range, muldiv, muldiv_spec, sqrt_spec, isqrt, wf_facing, wf_pose, wf_vec, Vec2i,
};
use crate::weapon::SpawnLaserEvent;
use crate::TICK_MS_LIMIT;

verus! {

/// Speed of a projectile along its facing, in world units per second.
pub const LASER_SPEED: i64 = 500;

/// Fixed time-to-live of a projectile, in milliseconds.
pub const LASER_TTL_MS: u64 = 5000;

/// Time a projectile has lived and the fixed duration after which it is
/// removed.
#[derive(Clone, Copy, PartialEq, Eq, Structural, Debug)]
pub struct Lifetime {
    pub elapsed_ms: u64,
    pub ttl_ms: u64,
}

pub open spec fn wf_lifetime(l: Lifetime) -> bool {
    &&& 1 <= l.ttl_ms <= 1_000_000_000
    &&& l.elapsed_ms < l.ttl_ms
}

/// The gameplay components of a projectile body.
#[derive(Clone, Copy, PartialEq, Eq, Structural, Debug)]
pub struct LaserBoltBundle {
    pub linear_velocity: Vec2i,
    pub lifetime: Lifetime,
}

impl Default for LaserBoltBundle {
    /// A bolt at rest with a full five-second lifetime ahead of it.
    fn default() -> (b: Self)
        ensures
            b.linear_velocity == (Vec2i { x: 0, y: 0 }),
            b.lifetime == (Lifetime { elapsed_ms: 0, ttl_ms: LASER_TTL_MS }),
    {
        LaserBoltBundle {
            linear_velocity: Vec2i { x: 0, y: 0 },
            lifetime: Lifetime { elapsed_ms: 0, ttl_ms: LASER_TTL_MS },
        }
    }
}

/// A projectile entity in the world.
#[derive(Clone, Copy, PartialEq, Eq, Structural, Debug)]
pub struct Laser {
    pub id: u64,
    pub pos: Vec2i,
    pub bolt: LaserBoltBundle,
}

pub open spec fn wf_laser(l: Laser) -> bool {
    &&& wf_vec(l.pos)
    &&& wf_vec(l.bolt.linear_velocity)
    &&& wf_lifetime(l.bolt.lifetime)
}

/// The velocity of a projectile launched along facing `f`: `f` scaled to
/// length `LASER_SPEED` (componentwise, rounded toward zero) by dividing by
/// the integer length of `f`.
pub open spec fn laser_velocity_spec(f: Vec2i) -> Vec2i {
    let len = sqrt_spec(f.x * f.x + f.y * f.y);
    Vec2i {
        x: muldiv_spec(f.x as int, LASER_SPEED as int, len) as i64,
        y: muldiv_spec(f.y as int, LASER_SPEED as int, len) as i64,
    }
}

pub fn laser_velocity(f: Vec2i) -> (v: Vec2i)
    requires
        wf_facing(f),
    ensures
        v == laser_velocity_spec(f),
        wf_vec(v),
{
    proof {
        assert(0 <= f.x * f.x <= 1_000_000_000_000 && 0 <= f.y * f.y <= 1_000_000_000_000)
            by (nonlinear_arith)
            requires
                -1_000_000 <= f.x <= 1_000_000,
                -1_000_000 <= f.y <= 1_000_000,
        ;
        assert(0 < f.x * f.x + f.y * f.y) by (nonlinear_arith)
            requires
                (f.x != 0 || f.y != 0),
        ;
    }
    let n: u64 = ((f.x * f.x) as u64) + ((f.y * f.y) as u64);
    let len_u = isqrt(n);
    proof {
        assert(sqrt_spec(n as int) >= 1) by {
            assert(len_u * len_u <= n < (len_u + 1) * (len_u + 1));
            if len_u == 0 {
                assert(n == 0);
            }
        }
        assert(len_u <= 2_000_001) by (nonlinear_arith)
            requires
                len_u * len_u <= 2_000_000_000_000,
                len_u >= 0,
        ;
    }
    let len = len_u as i64;
    Vec2i { x: muldiv(f.x, LASER_SPEED, len), y: muldiv(f.y, LASER_SPEED, len) }
}

/// The projectile a spawn request instantiates under a given identifier: at
/// the origin's position, moving at fixed speed along the origin's facing,
/// with a fresh lifetime.
pub open spec fn laser_from_event(e: SpawnLaserEvent, id: u64) -> Laser {
    Laser {
        id,
        pos: e.origin.pos,
        bolt: LaserBoltBundle {
            linear_velocity: laser_velocity_spec(e.origin.facing),
            lifetime: Lifetime { elapsed_ms: 0, ttl_ms: LASER_TTL_MS },
        },
    }
}

pub fn spawn_laser(e: &SpawnLaserEvent, id: u64) -> (r: Laser)
    requires
        wf_pose(e.origin),
    ensures
        r == laser_from_event(*e, id),
        wf_laser(r),
{
    Laser {
        id,
        pos: e.origin.pos,
        bolt: LaserBoltBundle {
            linear_velocity: laser_velocity(e.origin.facing),
            lifetime: Lifetime { elapsed_ms: 0, ttl_ms: LASER_TTL_MS },
        },
    }
}

/// Whether a projectile is still alive after another `dt` milliseconds.
pub open spec fn laser_survives(l: Laser, dt: u64) -> bool {
    l.bolt.lifetime.elapsed_ms + dt < l.bolt.lifetime.ttl_ms
}

/// The projectile with `dt` more milliseconds on its clock.
pub open spec fn laser_aged(l: Laser, dt: u64) -> Laser
    recommends
        laser_survives(l, dt),
{
    Laser {
        bolt: LaserBoltBundle {
            lifetime: Lifetime {
                elapsed_ms: (l.bolt.lifetime.elapsed_ms + dt) as u64,
                ttl_ms: l.bolt.lifetime.ttl_ms,
            },
            ..l.bolt
        },
        ..l
    }
}

/// One tick of the projectile lifecycle over a population, in order: every
/// live projectile ages by `dt`; one whose time-to-live thereby elapses is
/// removed.
pub open spec fn age_lifetimes_spec(s: Seq<Laser>, dt: u64) -> Seq<Laser>
    decreases s.len(),
{
    if s.len() == 0 {
        Seq::empty()
    } else {
        age_lifetimes_spec(s.drop_last(), dt) + (if laser_survives(s.last(), dt) {
            seq![laser_aged(s.last(), dt)]
        } else {
            Seq::empty()
        })
    }
}

/// Ages every projectile by `dt` milliseconds and removes those whose
/// time-to-live has elapsed.
pub fn update_lifetimes(lasers: &mut Vec<Laser>, dt: u64)
    requires
        forall|i: int| 0 <= i < old(lasers)@.len() ==> wf_laser(#[trigger] old(lasers)@[i]),
        dt <= TICK_MS_LIMIT,
    ensures
        final(lasers)@ == age_lifetimes_spec(old(lasers)@, dt),
        forall|i: int| 0 <= i < final(lasers)@.len() ==> wf_laser(#[trigger] final(lasers)@[i]),
        forall|i: int|
            0 <= i < final(lasers)@.len() ==> has_laser(
                old(lasers)@,
                (#[trigger] final(lasers)@[i]).id,
            ),
{
    let ghost orig = lasers@;
    let mut out: Vec<Laser> = Vec::new();
    let mut i: usize = 0;
    proof {
        assert(out@ =~= age_lifetimes_spec(orig.take(0), dt));
    }
    while i < lasers.len()
        invariant
            0 <= i <= lasers@.len(),
            lasers@ == orig,
            forall|k: int| 0 <= k < orig.len() ==> wf_laser(#[trigger] orig[k]),
            dt <= TICK_MS_LIMIT,
            out@ == age_lifetimes_spec(orig.take(i as int), dt),
            forall|k: int| 0 <= k < out@.len() ==> wf_laser(#[trigger] out@[k]),
            forall|k: int| 0 <= k < out@.len() ==> has_laser(orig, (#[trigger] out@[k]).id),
        decreases lasers@.len() - i,
    {
        let l = lasers[i];
        proof {
            assert(orig.take(i + 1).drop_last() =~= orig.take(i as int));
            assert(orig.take(i + 1).last() == orig[i as int]);
        }
        if l.bolt.lifetime.elapsed_ms + dt < l.bolt.lifetime.ttl_ms {
            let aged = Laser {
                id: l.id,
                pos: l.pos,
                bolt: LaserBoltBundle {
                    linear_velocity: l.bolt.linear_velocity,
                    lifetime: Lifetime {
                        elapsed_ms: l.bolt.lifetime.elapsed_ms + dt,
                        ttl_ms: l.bolt.lifetime.ttl_ms,
                    },
                },
            };
            proof {
                assert(aged == laser_aged(orig[i as int], dt));
                assert(out@.push(aged) =~= age_lifetimes_spec(orig.take(i + 1), dt));
                assert(orig[i as int].id == aged.id);
                assert(has_laser(orig, aged.id));
            }
            out.push(aged);
        } else {
            proof {
                assert(out@ =~= age_lifetimes_spec(orig.take(i + 1), dt));
            }
        }
        i += 1;
    }
    proof {
        assert(orig.take(orig.len() as int) =~= orig);
    }
    *lasers = out;
}

/// Whether a projectile with the given identifier is present.
pub open spec fn has_laser(s: Seq<Laser>, id: u64) -> bool {
    exists|i: int| 0 <= i < s.len() && #[trigger] s[i].id == id
}

/// Time-to-live without flicker, one tick at a time: after an aging tick a
/// projectile identifier is present exactly when it was present before the
/// tick with enough time-to-live left — so a projectile stays present every
/// tick until its time-to-live elapses, and the aging phase never
/// re-introduces one it has removed.
pub proof fn lemma_ttl_presence(s: Seq<Laser>, dt: u64, id: u64)
    ensures
        has_laser(age_lifetimes_spec(s, dt), id) <==> exists|i: int|
            0 <= i < s.len() && #[trigger] s[i].id == id && laser_survives(s[i], dt),
    decreases s.len(),
{
    if s.len() == 0 {
    } else {
        lemma_ttl_presence(s.drop_last(), dt, id);
        let aged = age_lifetimes_spec(s, dt);
        let prev = age_lifetimes_spec(s.drop_last(), dt);
        if has_laser(aged, id) {
            let i = choose|i: int| 0 <= i < aged.len() && #[trigger] aged[i].id == id;
            if i < prev.len() {
                assert(has_laser(prev, id));
                let j = choose|j: int|
                    0 <= j < s.drop_last().len() && #[trigger] s.drop_last()[j].id == id
                        && laser_survives(s.drop_last()[j], dt);
                assert(s[j].id == id && laser_survives(s[j], dt));
            } else {
                assert(laser_survives(s.last(), dt));
                assert(aged[i] == laser_aged(s.last(), dt));
                assert(s[s.len() - 1].id == id && laser_survives(s[s.len() - 1], dt));
            }
        }
        if exists|i: int| 0 <= i < s.len() && #[trigger] s[i].id == id && laser_survives(s[i], dt) {
            let i = choose|i: int|
                0 <= i < s.len() && #[trigger] s[i].id == id && laser_survives(s[i], dt);
            if i < s.len() - 1 {
                assert(s.drop_last()[i].id == id && laser_survives(s.drop_last()[i], dt));
                assert(has_laser(prev, id));
                let j = choose|j: int| 0 <= j < prev.len() && #[trigger] prev[j].id == id;
                assert(aged[j].id == id);
            } else {
                let k = aged.len() - 1;
                assert(aged[k] == laser_aged(s.last(), dt));
                assert(aged[k].id == id);
            }
        }
    }
}

} // verus!
