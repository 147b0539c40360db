//! The weapon subsystem: a per-entity cooldown timer that rate-limits fire
//! intents. The timer advances every tick whether or not a fire intent
//! arrives; a shot is emitted only when the fixed interval has elapsed since
//! the last one, and firing resets the timer.

use vstd::prelude::*;

use crate::geom::Pose;
use crate::TICK_MS_LIMIT;

verus! {

/// Nominal rounds per minute of a weapon; carried as data on the bundle.
#[derive(Clone, Copy, PartialEq, Eq, Structural, Debug)]
pub struct RateOfFire(pub i8);

/// Progress toward the next permitted shot: milliseconds accumulated since
/// the last shot, saturating at the fixed interval.
#[derive(Clone, Copy, PartialEq, Eq, Structural, Debug)]
pub struct FireTimer {
    pub elapsed_ms: u64,
    pub interval_ms: u64,
}

pub open spec fn wf_timer(t: FireTimer) -> bool {
    &&& 1 <= t.interval_ms <= 1_000_000_000
    &&& t.elapsed_ms <= t.interval_ms
}

/// A weapon is ready exactly when the full interval has elapsed since the
/// last shot.
pub open spec fn timer_ready(t: FireTimer) -> bool {
    t.elapsed_ms >= t.interval_ms
}

/// The timer after one tick of `dt` milliseconds without a shot: progress
/// accumulates and saturates at the interval.
pub open spec fn timer_after_tick(t: FireTimer, dt: u64) -> FireTimer {
    FireTimer {
        elapsed_ms: if t.elapsed_ms + dt >= t.interval_ms {
            t.interval_ms
        } else {
            (t.elapsed_ms + dt) as u64
        },
        interval_ms: t.interval_ms,
    }
}

/// One tick of the weapon state machine: the timer always advances by `dt`;
/// a shot is taken exactly when a fire intent is present and the advanced
/// timer has reached the interval, and taking it resets the timer to zero.
pub open spec fn timer_step(t: FireTimer, dt: u64, fire: bool) -> FireTimer {
    if fire && t.elapsed_ms + dt >= t.interval_ms {
        FireTimer { elapsed_ms: 0, interval_ms: t.interval_ms }
    } else {
        timer_after_tick(t, dt)
    }
}

/// Advances a weapon timer by one tick and reports whether a shot fires.
pub fn weapon_step(t: &mut FireTimer, dt: u64, fire: bool) -> (fired: bool)
    requires
        wf_timer(*old(t)),
        dt <= TICK_MS_LIMIT,
    ensures
        fired == (fire && old(t).elapsed_ms + dt >= old(t).interval_ms),
        *final(t) == timer_step(*old(t), dt, fire),
        wf_timer(*final(t)),
{
    let advanced = if t.elapsed_ms + dt >= t.interval_ms {
        t.interval_ms
    } else {
        t.elapsed_ms + dt
    };
    t.elapsed_ms = advanced;
    if fire && advanced >= t.interval_ms {
        t.elapsed_ms = 0;
        true
    } else {
        false
    }
}

/// The gameplay components of a weapon: its nominal rate and its cooldown
/// timer.
#[derive(Clone, Copy, PartialEq, Eq, Structural, Debug)]
pub struct LaserWeaponBundle {
    pub rate_of_fire: RateOfFire,
    pub fire_timer: FireTimer,
}

impl Default for LaserWeaponBundle {
    /// A weapon rated at 60 rounds per minute with a half-second cooldown,
    /// starting cold: the first shot is permitted once one full interval has
    /// elapsed.
    fn default() -> (w: Self)
        ensures
            w.rate_of_fire == (RateOfFire(60)),
            w.fire_timer == (FireTimer { elapsed_ms: 0, interval_ms: 500 }),
    {
        LaserWeaponBundle {
            rate_of_fire: RateOfFire(60),
            fire_timer: FireTimer { elapsed_ms: 0, interval_ms: 500 },
        }
    }
}

/// A request to spawn one projectile from the given origin, carrying the
/// firing entity's position and facing at the moment of the shot.
#[derive(Clone, Copy, PartialEq, Eq, Structural, Debug)]
pub struct SpawnLaserEvent {
    pub origin: Pose,
}

/// The timer state after a trace of ticks, each `deltas[k]` milliseconds
/// long and each with the fire key held.
pub open spec fn timer_after_trace(t: FireTimer, deltas: Seq<u64>) -> FireTimer
    decreases deltas.len(),
{
    if deltas.len() == 0 {
        t
    } else {
        timer_after_trace(timer_step(t, deltas[0], true), deltas.drop_first())
    }
}

/// How many shots a trace of ticks emits when the fire key is held
/// throughout.
pub open spec fn spawn_count_spec(t: FireTimer, deltas: Seq<u64>) -> int
    decreases deltas.len(),
{
    if deltas.len() == 0 {
        0int
    } else {
        (if t.elapsed_ms + deltas[0] >= t.interval_ms {
            1int
        } else {
            0int
        }) + spawn_count_spec(timer_step(t, deltas[0], true), deltas.drop_first())
    }
}

pub open spec fn sum_deltas(deltas: Seq<u64>) -> int
    decreases deltas.len(),
{
    if deltas.len() == 0 {
        0int
    } else {
        deltas[0] + sum_deltas(deltas.drop_first())
    }
}

/// Cooldown rate limit: over any trace of ticks with the fire key held, the
/// shots taken never exceed the elapsed time (plus the progress the timer
/// started with) divided by the fixed interval — at most one extra shot when
/// the weapon starts ready, and never more.
pub proof fn lemma_cooldown_never_more(t: FireTimer, deltas: Seq<u64>)
    requires
        wf_timer(t),
    ensures
        spawn_count_spec(t, deltas) * t.interval_ms <= t.elapsed_ms + sum_deltas(deltas),
        spawn_count_spec(t, deltas) <= (t.elapsed_ms + sum_deltas(deltas)) / (t.interval_ms as int),
    decreases deltas.len(),
{
    let count = spawn_count_spec(t, deltas);
    let total = t.elapsed_ms + sum_deltas(deltas);
    if deltas.len() == 0 {
        assert(count * t.interval_ms == 0) by (nonlinear_arith)
            requires
                count == 0,
        ;
    } else {
        let d = deltas[0];
        let t2 = timer_step(t, d, true);
        let rest = deltas.drop_first();
        let crest = spawn_count_spec(t2, rest);
        lemma_cooldown_never_more(t2, rest);
        if t.elapsed_ms + d >= t.interval_ms {
            assert(count == 1 + crest);
            assert(t2.elapsed_ms == 0);
            assert((1 + crest) * t.interval_ms == t.interval_ms + crest * t.interval_ms)
                by (nonlinear_arith);
        } else {
            assert(count == crest);
            assert(t2.elapsed_ms == t.elapsed_ms + d);
        }
    }
    assert(count * t.interval_ms <= total);
    vstd::arithmetic::div_mod::lemma_div_is_ordered(
        count * t.interval_ms,
        total,
        t.interval_ms as int,
    );
    vstd::arithmetic::div_mod::lemma_div_multiples_vanish(count, t.interval_ms as int);
}

proof fn lemma_small_quotient(x: int, d: int)
    requires
        0 <= x < d,
    ensures
        x / d == 0,
{
    vstd::arithmetic::div_mod::lemma_fundamental_div_mod(x, d);
    vstd::arithmetic::div_mod::lemma_mod_bound(x, d);
    assert(x / d == 0) by (nonlinear_arith)
        requires
            x == d * (x / d) + (x % d),
            0 <= x % d < d,
            0 <= x < d,
    ;
}

/// Exact cooldown rate: with the fire key held through a trace whose ticks
/// are all `d` milliseconds long, where `d` divides the interval — so no
/// tick overshoots a cooldown boundary and no progress is lost to a reset —
/// the shots taken are exactly the elapsed fire time, plus the progress the
/// timer started with, divided by the interval.
pub proof fn lemma_cooldown_exact_rate(t: FireTimer, deltas: Seq<u64>, d: u64)
    requires
        wf_timer(t),
        1 <= d,
        t.interval_ms % d == 0,
        t.elapsed_ms % d == 0,
        t.elapsed_ms < t.interval_ms,
        forall|i: int| 0 <= i < deltas.len() ==> #[trigger] deltas[i] == d,
    ensures
        spawn_count_spec(t, deltas) == (t.elapsed_ms + deltas.len() * d) / (
        t.interval_ms as int),
    decreases deltas.len(),
{
    let e = t.elapsed_ms as int;
    let iv = t.interval_ms as int;
    let k = deltas.len() as int;
    let di = d as int;
    if deltas.len() == 0 {
        lemma_small_quotient(e, iv);
    } else {
        vstd::arithmetic::div_mod::lemma_fundamental_div_mod(e, di);
        vstd::arithmetic::div_mod::lemma_fundamental_div_mod(iv, di);
        assert(e + di <= iv) by (nonlinear_arith)
            requires
                e == di * (e / di),
                iv == di * (iv / di),
                e < iv,
                1 <= di,
        ;
        let rest = deltas.drop_first();
        assert(deltas[0] == d);
        let t2 = timer_step(t, d, true);
        if e + di >= iv {
            assert(t2 == FireTimer { elapsed_ms: 0, interval_ms: t.interval_ms });
            lemma_cooldown_exact_rate(t2, rest, d);
            assert(spawn_count_spec(t2, rest) == ((k - 1) * di) / iv);
            vstd::arithmetic::div_mod::lemma_hoist_over_denominator(
                (k - 1) * di,
                1,
                t.interval_ms as nat,
            );
            assert((k - 1) * di + iv == e + k * di) by (nonlinear_arith)
                requires
                    e + di == iv,
        ;
        } else {
            assert(t2.elapsed_ms == e + di);
            assert((e + di) % di == 0) by {
                vstd::arithmetic::div_mod::lemma_mod_multiples_basic(e / di + 1, di);
                assert(e + di == (e / di + 1) * di) by (nonlinear_arith)
                    requires
                        e == di * (e / di),
                ;
            }
            lemma_cooldown_exact_rate(t2, rest, d);
            assert((e + di) + (k - 1) * di == e + k * di) by (nonlinear_arith);
        }
    }
}

} // verus!
