//! Integer plane geometry for the simulation: bounded 2D vectors, a
//! piecewise-linear model of the unit circle for ring placement, an integer
//! square root for normalising directions, and clamped arithmetic that keeps
//! every stored coordinate inside a fixed machine range.

use vstd::prelude::*;

verus! {

/// Largest magnitude a stored coordinate or velocity component may take.
/// Far beyond any gameplay-scale value; it exists so that every addition the
/// simulation performs provably fits in an `i64`.
pub const COORD_LIMIT: i64 = 1_000_000_000_000;

/// Largest magnitude of a single additive adjustment (a thrust impulse, a
/// velocity jitter, a ring offset).
pub const STEP_LIMIT: i64 = 1_000_000_000;

/// A point or vector of the play field, in whole world units.
#[derive(Clone, Copy, PartialEq, Eq, Structural, Debug)]
pub struct Vec2i {
    pub x: i64,
    pub y: i64,
}

/// A position together with a facing direction (an unnormalised vector
/// toward whatever the entity last aimed at).
#[derive(Clone, Copy, PartialEq, Eq, Structural, Debug)]
pub struct Pose {
    pub pos: Vec2i,
    pub facing: Vec2i,
}

/// Largest magnitude of a stored facing component. Facing vectors are
/// differences of on-field points, clamped to this range so that squaring
/// them stays well inside an `i64`.
pub const FACING_LIMIT: i64 = 1_000_000;

pub open spec fn in_range(v: int) -> bool {
    -COORD_LIMIT <= v <= COORD_LIMIT
}

pub open spec fn wf_vec(v: Vec2i) -> bool {
    in_range(v.x as int) && in_range(v.y as int)
}

/// A usable facing direction: nonzero, with both components small enough to
/// square.
pub open spec fn wf_facing(f: Vec2i) -> bool {
    &&& (f.x != 0 || f.y != 0)
    &&& -FACING_LIMIT <= f.x <= FACING_LIMIT
    &&& -FACING_LIMIT <= f.y <= FACING_LIMIT
}

pub open spec fn wf_pose(p: Pose) -> bool {
    wf_vec(p.pos) && wf_facing(p.facing)
}

/// Clamps one component of an aim difference into the facing range.
pub fn clamp_facing(v: i64) -> (r: i64)
    ensures
        r == clamp_facing_spec(v as int),
{
    if v > FACING_LIMIT {
        FACING_LIMIT
    } else if v < -FACING_LIMIT {
        -FACING_LIMIT
    } else {
        v
    }
}

pub open spec fn clamp_facing_spec(v: int) -> int {
    if v > FACING_LIMIT {
        FACING_LIMIT as int
    } else if v < -(FACING_LIMIT as int) {
        -(FACING_LIMIT as int)
    } else {
        v
    }
}

/// The sum `v`, pulled back into the stored range if it exceeds it.
pub open spec fn clamp_spec(v: int) -> int {
    if v > COORD_LIMIT {
        COORD_LIMIT as int
    } else if v < -(COORD_LIMIT as int) {
        -(COORD_LIMIT as int)
    } else {
        v
    }
}

/// Adds an adjustment to a stored component, clamping at the machine range.
pub fn clamp_add(v: i64, d: i64) -> (r: i64)
    requires
        in_range(v as int),
        -STEP_LIMIT <= d <= STEP_LIMIT,
    ensures
        r == clamp_spec(v + d),
        in_range(r as int),
{
    let s = v + d;
    if s > COORD_LIMIT {
        COORD_LIMIT
    } else if s < -COORD_LIMIT {
        -COORD_LIMIT
    } else {
        s
    }
}

/// Piecewise-linear sine over a 360-degree circle, scaled so that a quarter
/// turn reaches 90. This is the simulation's own model of rotation; it is
/// exact integer arithmetic, not an approximation borrowed from elsewhere.
pub open spec fn tri_sin_spec(d: int) -> int
    recommends
        0 <= d < 360,
{
    if d <= 90 {
        d
    } else if d <= 270 {
        180 - d
    } else {
        d - 360
    }
}

/// Piecewise-linear cosine: the sine a quarter turn ahead.
pub open spec fn tri_cos_spec(d: int) -> int
    recommends
        0 <= d < 360,
{
    tri_sin_spec((d + 90) % 360)
}

pub fn tri_sin(d: i64) -> (r: i64)
    requires
        0 <= d < 360,
    ensures
        r == tri_sin_spec(d as int),
        -90 <= r <= 90,
{
    if d <= 90 {
        d
    } else if d <= 270 {
        180 - d
    } else {
        d - 360
    }
}

pub fn tri_cos(d: i64) -> (r: i64)
    requires
        0 <= d < 360,
    ensures
        r == tri_cos_spec(d as int),
        -90 <= r <= 90,
{
    let e = (d + 90) % 360;
    tri_sin(e)
}

/// `radius` scaled by a circle value `t` in `[-90, 90]`, rounded toward
/// zero, so that the result never exceeds `radius` in magnitude.
pub open spec fn scale_tri_spec(radius: int, t: int) -> int
    recommends
        0 <= radius,
        -90 <= t <= 90,
{
    if t >= 0 {
        (radius * t) / 90
    } else {
        -((radius * (-t)) / 90)
    }
}

pub fn scale_tri(radius: i64, t: i64) -> (r: i64)
    requires
        0 <= radius <= 1000,
        -90 <= t <= 90,
    ensures
        r == scale_tri_spec(radius as int, t as int),
        -radius <= r <= radius,
{
    if t >= 0 {
        proof {
            assert(0 <= radius * t <= radius * 90) by (nonlinear_arith)
                requires
                    0 <= radius,
                    0 <= t <= 90,
            ;
            vstd::arithmetic::div_mod::lemma_div_is_ordered(radius * t, radius * 90, 90);
            vstd::arithmetic::div_mod::lemma_div_multiples_vanish(radius as int, 90);
            vstd::arithmetic::div_mod::lemma_div_pos_is_pos(radius * t, 90);
        }
        radius * t / 90
    } else {
        proof {
            assert(0 <= radius * (-t) <= radius * 90) by (nonlinear_arith)
                requires
                    0 <= radius,
                    0 <= -t <= 90,
            ;
            vstd::arithmetic::div_mod::lemma_div_is_ordered(radius * (-t), radius * 90, 90);
            vstd::arithmetic::div_mod::lemma_div_multiples_vanish(radius as int, 90);
            vstd::arithmetic::div_mod::lemma_div_pos_is_pos(radius * (-t), 90);
        }
        -(radius * (-t) / 90)
    }
}

/// The point at `radius` from `center` in the direction `angle` degrees,
/// where angle 0 points along the positive y axis and angles grow
/// counter-clockwise: the rotation of the vector (0, radius).
pub open spec fn ring_point_spec(center: Vec2i, radius: int, angle: int) -> Vec2i
    recommends
        wf_vec(center),
        0 <= radius <= 1000,
        0 <= angle < 360,
{
    let ox = -scale_tri_spec(radius, tri_sin_spec(angle));
    let oy = scale_tri_spec(radius, tri_cos_spec(angle));
    Vec2i { x: clamp_spec(center.x + ox) as i64, y: clamp_spec(center.y + oy) as i64 }
}

pub fn ring_point(center: Vec2i, radius: i64, angle: i64) -> (r: Vec2i)
    requires
        wf_vec(center),
        0 <= radius <= 1000,
        0 <= angle < 360,
    ensures
        r == ring_point_spec(center, radius as int, angle as int),
        wf_vec(r),
{
    let s = tri_sin(angle);
    let c = tri_cos(angle);
    let ox = -scale_tri(radius, s);
    let oy = scale_tri(radius, c);
    Vec2i { x: clamp_add(center.x, ox), y: clamp_add(center.y, oy) }
}

/// The integer square root: the unique `r >= 0` with
/// `r * r <= n < (r + 1) * (r + 1)`.
pub open spec fn sqrt_spec(n: int) -> int
    recommends
        n >= 0,
{
    choose|r: int| 0 <= r && #[trigger] (r * r) <= n && (r + 1) * (r + 1) > n
}

proof fn lemma_sqrt_unique(n: int, a: int, b: int)
    requires
        0 <= a,
        a * a <= n,
        (a + 1) * (a + 1) > n,
        0 <= b,
        b * b <= n,
        (b + 1) * (b + 1) > n,
    ensures
        a == b,
{
    assert(a == b) by (nonlinear_arith)
        requires
            0 <= a,
            a * a <= n,
            (a + 1) * (a + 1) > n,
            0 <= b,
            b * b <= n,
            (b + 1) * (b + 1) > n,
    ;
}

pub fn isqrt(n: u64) -> (r: u64)
    requires
        n <= 4_000_000_000_000,
    ensures
        r * r <= n < (r + 1) * (r + 1),
        r == sqrt_spec(n as int),
{
    let mut lo: u64 = 0;
    let mut hi: u64 = 2_000_001;
    assert(hi * hi > n) by (nonlinear_arith)
        requires
            hi == 2_000_001,
            n <= 4_000_000_000_000,
    ;
    while lo + 1 < hi
        invariant
            lo < hi <= 2_000_001,
            lo * lo <= n,
            hi * hi > n,
        decreases hi - lo,
    {
        let mid = lo + (hi - lo) / 2;
        proof {
            assert(mid * mid <= 4_000_004_000_001) by (nonlinear_arith)
                requires
                    0 <= mid <= 2_000_001,
            ;
        }
        if mid * mid <= n {
            lo = mid;
        } else {
            hi = mid;
        }
    }
    proof {
        let w: int = lo as int;
        assert(0 <= w && w * w <= n as int && (w + 1) * (w + 1) > n as int);
        assert(exists|r: int| 0 <= r && #[trigger] (r * r) <= n as int && (r + 1) * (r + 1) > n as int);
        lemma_sqrt_unique(n as int, sqrt_spec(n as int), w);
    }
    lo
}

/// `a * m / d` with the division rounded toward zero, as the sign-split of
/// nonnegative quotients.
pub open spec fn muldiv_spec(a: int, m: int, d: int) -> int
    recommends
        0 <= m,
        0 < d,
{
    if a >= 0 {
        (a * m) / d
    } else {
        -(((-a) * m) / d)
    }
}

pub fn muldiv(a: i64, m: i64, d: i64) -> (r: i64)
    requires
        -1_000_000 <= a <= 1_000_000,
        0 <= m <= 1000,
        1 <= d,
    ensures
        r == muldiv_spec(a as int, m as int, d as int),
        -1_000_000_000 <= r <= 1_000_000_000,
{
    if a >= 0 {
        proof {
            assert(0 <= a * m <= 1_000_000_000) by (nonlinear_arith)
                requires
                    0 <= a <= 1_000_000,
                    0 <= m <= 1000,
            ;
            vstd::arithmetic::div_mod::lemma_div_pos_is_pos(a * m, d as int);
            vstd::arithmetic::div_mod::lemma_div_nonincreasing(a * m, d as int);
        }
        a * m / d
    } else {
        proof {
            assert(0 <= (-a) * m <= 1_000_000_000) by (nonlinear_arith)
                requires
                    -1_000_000 <= a < 0,
                    0 <= m <= 1000,
            ;
            vstd::arithmetic::div_mod::lemma_div_pos_is_pos((-a) * m, d as int);
            vstd::arithmetic::div_mod::lemma_div_nonincreasing((-a) * m, d as int);
        }
        -((-a) * m / d)
    }
}

} // verus!
