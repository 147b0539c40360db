//! The boundary wrapper: an entity whose position strictly exceeds the
//! play-field half extent on an axis has that coordinate reflected (negated
//! with a unit offset toward the field). Deliberately a reflect, not a
//! wrap-around, and the high side of each axis is checked before the low
//! side sees the possibly already reflected value.

use vstd::prelude::*;

use crate::geom::{in_range, wf_vec, Vec2i};
use crate::{FIELD_HALF_HEIGHT, FIELD_HALF_WIDTH};

verus! {

/// One axis of the boundary check: first the high side, then the low side
/// against the possibly already reflected value.
/// A coordinate at or inside the boundary (the comparison is strict) is
/// untouched.
pub open spec fn reflect_axis_spec(v: int, limit: int) -> int {
    let v1 = if v > limit {
        -v + 1
    } else {
        v
    };
    if v1 < -limit {
        -v1 - 1
    } else {
        v1
    }
}

pub fn reflect_axis(v: i64, limit: i64) -> (r: i64)
    requires
        in_range(v as int),
        0 < limit <= 1_000_000,
    ensures
        r == reflect_axis_spec(v as int, limit as int),
        in_range(r as int),
{
    let v1 = if v > limit {
        -v + 1
    } else {
        v
    };
    if v1 < -limit {
        -v1 - 1
    } else {
        v1
    }
}

/// A position with both axes put through the boundary check.
pub open spec fn reflect_position_spec(p: Vec2i) -> Vec2i {
    Vec2i {
        x: reflect_axis_spec(p.x as int, FIELD_HALF_WIDTH as int) as i64,
        y: reflect_axis_spec(p.y as int, FIELD_HALF_HEIGHT as int) as i64,
    }
}

pub fn reflect_position(p: Vec2i) -> (r: Vec2i)
    requires
        wf_vec(p),
    ensures
        r == reflect_position_spec(p),
        wf_vec(r),
{
    Vec2i {
        x: reflect_axis(p.x, FIELD_HALF_WIDTH),
        y: reflect_axis(p.y, FIELD_HALF_HEIGHT),
    }
}

/// Boundary reflection is idempotent under re-check: a coordinate on or
/// inside the boundary — including exactly at it — is left unchanged, so an
/// entity at the boundary is not reflected and cannot oscillate within a
/// single check.
pub proof fn lemma_boundary_at_rest(v: int, limit: int)
    requires
        0 < limit,
        -limit <= v <= limit,
    ensures
        reflect_axis_spec(v, limit) == v,
{
}

/// The whole-position form: a position on or inside the play field is a
/// fixed point of the boundary wrapper.
pub proof fn lemma_boundary_position_at_rest(p: Vec2i)
    requires
        -FIELD_HALF_WIDTH <= p.x <= FIELD_HALF_WIDTH,
        -FIELD_HALF_HEIGHT <= p.y <= FIELD_HALF_HEIGHT,
    ensures
        reflect_position_spec(p) == p,
{
    lemma_boundary_at_rest(p.x as int, FIELD_HALF_WIDTH as int);
    lemma_boundary_at_rest(p.y as int, FIELD_HALF_HEIGHT as int);
}

} // verus!
