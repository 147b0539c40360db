//! The controlled ship: its movement constants, its pose (position plus the
//! facing direction the aiming subsystem maintains), thrust applied from
//! movement intents, and orientation toward the aim target.

use vstd::prelude::*;

use crate::geom::{
    clamp_add, clamp_facing, clamp_facing_spec, clamp_spec, wf_facing, wf_pose, wf_vec, Pose,
    Vec2i,
};
use crate::input::{wf_intent, InputAction};
use crate::weapon::{wf_timer, LaserWeaponBundle};
use crate::TICK_MS_LIMIT;

verus! {

/// Largest acceleration constant a controller may carry, in units per second
/// squared; keeps one tick's impulse inside the adjustment range.
pub const ACCEL_LIMIT: i64 = 1_000_000;

/// Thrust applied per second of held input, in units per second squared.
#[derive(Clone, Copy, PartialEq, Eq, Structural, Debug)]
pub struct MovementAcceleration(pub i64);

/// The damping factor the external physics engine applies to slow movement,
/// in thousandths per step. Carried as data; the engine applies it.
#[derive(Clone, Copy, PartialEq, Eq, Structural, Debug)]
pub struct MovementDampingFactor(pub i64);

/// The gameplay components of the ship's character controller.
#[derive(Clone, Copy, PartialEq, Eq, Structural, Debug)]
pub struct ShipControllerBundle {
    pub collider_radius: i64,
    pub acceleration: MovementAcceleration,
    pub lineardamping: MovementDampingFactor,
}

impl Default for ShipControllerBundle {
    /// The standard controller: a 40-unit collider, 1280 units of thrust
    /// per second squared, damping of 990 thousandths.
    fn default() -> (c: Self)
        ensures
            c.collider_radius == 40,
            c.acceleration == (MovementAcceleration(1280)),
            c.lineardamping == (MovementDampingFactor(990)),
    {
        ShipControllerBundle {
            collider_radius: 40,
            acceleration: MovementAcceleration(1280),
            lineardamping: MovementDampingFactor(990),
        }
    }
}

/// The ship entity: the one controlled, weapon-bearing, look-at entity of a
/// play session.
#[derive(Clone, Copy, PartialEq, Eq, Structural, Debug)]
pub struct Ship {
    pub id: u64,
    pub pose: Pose,
    pub linear_velocity: Vec2i,
    pub controller: ShipControllerBundle,
    pub weapon: LaserWeaponBundle,
}

pub open spec fn wf_ship(s: Ship) -> bool {
    &&& wf_pose(s.pose)
    &&& wf_vec(s.linear_velocity)
    &&& 0 <= s.controller.acceleration.0 <= ACCEL_LIMIT
    &&& 0 <= s.controller.lineardamping.0 <= 1000
    &&& wf_timer(s.weapon.fire_timer)
}

/// The impulse one tick of held input adds to one velocity axis: the
/// acceleration constant integrated over the tick.
pub open spec fn thrust_spec(accel: int, dt: int) -> int {
    accel * dt / 1000
}

/// The ship after one movement intent: the intent's axis pair, scaled by the
/// tick's thrust, added to the linear velocity. Nothing else changes.
pub open spec fn ship_after_move(s: Ship, d: Vec2i, dt: u64) -> Ship {
    let t = thrust_spec(s.controller.acceleration.0 as int, dt as int);
    Ship {
        linear_velocity: Vec2i {
            x: clamp_spec(s.linear_velocity.x + d.x * t) as i64,
            y: clamp_spec(s.linear_velocity.y + d.y * t) as i64,
        },
        ..s
    }
}

/// The ship after a tick's intents are applied in order: every movement
/// intent accumulates its impulse independently; fire intents do not move
/// the ship.
pub open spec fn ship_after_intents(s: Ship, intents: Seq<InputAction>, dt: u64) -> Ship
    decreases intents.len(),
{
    if intents.len() == 0 {
        s
    } else {
        let prev = ship_after_intents(s, intents.drop_last(), dt);
        match intents.last() {
            InputAction::Move(d) => ship_after_move(prev, d, dt),
            InputAction::Fire => prev,
        }
    }
}

/// Thrust only moves the ship: applying a tick's intents changes nothing
/// but the linear velocity.
pub proof fn lemma_ship_after_intents_frame(s: Ship, intents: Seq<InputAction>, dt: u64)
    ensures
        ship_after_intents(s, intents, dt).id == s.id,
        ship_after_intents(s, intents, dt).pose == s.pose,
        ship_after_intents(s, intents, dt).controller == s.controller,
        ship_after_intents(s, intents, dt).weapon == s.weapon,
    decreases intents.len(),
{
    if intents.len() > 0 {
        lemma_ship_after_intents_frame(s, intents.drop_last(), dt);
    }
}

/// Responds to the tick's movement intents by adding thrust impulses to the
/// ship's linear velocity.
pub fn movement(ship: &mut Ship, intents: &Vec<InputAction>, dt: u64)
    requires
        wf_ship(*old(ship)),
        forall|i: int| 0 <= i < intents@.len() ==> wf_intent(#[trigger] intents@[i]),
        dt <= TICK_MS_LIMIT,
    ensures
        *final(ship) == ship_after_intents(*old(ship), intents@, dt),
        wf_ship(*final(ship)),
{
    let ghost orig = *ship;
    let accel = ship.controller.acceleration.0;
    proof {
        assert(0 <= accel * (dt as i64) <= 1_000_000_000_000) by (nonlinear_arith)
            requires
                0 <= accel <= ACCEL_LIMIT,
                0 <= dt <= TICK_MS_LIMIT,
        ;
    }
    let t = accel * (dt as i64) / 1000;
    proof {
        vstd::arithmetic::div_mod::lemma_div_pos_is_pos(accel * (dt as i64), 1000);
        vstd::arithmetic::div_mod::lemma_div_is_ordered(
            accel * (dt as i64),
            1_000_000_000_000,
            1000,
        );
        assert(t == thrust_spec(accel as int, dt as int));
        assert(0 <= t <= 1_000_000_000);
    }
    let mut i: usize = 0;
    while i < intents.len()
        invariant
            0 <= i <= intents@.len(),
            forall|k: int| 0 <= k < intents@.len() ==> wf_intent(#[trigger] intents@[k]),
            t == thrust_spec(orig.controller.acceleration.0 as int, dt as int),
            0 <= t <= 1_000_000_000,
            *ship == ship_after_intents(orig, intents@.take(i as int), dt),
            ship.controller == orig.controller,
            wf_ship(*ship),
        decreases intents@.len() - i,
    {
        proof {
            assert(intents@.take(i + 1).drop_last() =~= intents@.take(i as int));
            assert(intents@.take(i + 1).last() == intents@[i as int]);
        }
        match intents[i] {
            InputAction::Move(d) => {
                proof {
                    assert(-1_000_000_000 <= d.x * t <= 1_000_000_000 && -1_000_000_000 <= d.y * t
                        <= 1_000_000_000) by (nonlinear_arith)
                        requires
                            -1 <= d.x <= 1,
                            -1 <= d.y <= 1,
                            0 <= t <= 1_000_000_000,
                    ;
                }
                let vx = clamp_add(ship.linear_velocity.x, d.x * t);
                let vy = clamp_add(ship.linear_velocity.y, d.y * t);
                ship.linear_velocity = Vec2i { x: vx, y: vy };
            },
            InputAction::Fire => {},
        }
        i += 1;
    }
    proof {
        assert(intents@.take(intents@.len() as int) =~= intents@);
    }
}

/// The facing the aiming subsystem gives a look-at entity at `pos` aiming at
/// `target`: the difference vector, each component pulled into the facing
/// range. When the target coincides with the position there is no direction
/// to face, and the facing is left as it was.
pub open spec fn facing_toward_spec(pos: Vec2i, target: Vec2i, current: Vec2i) -> Vec2i {
    if pos == target {
        current
    } else {
        Vec2i {
            x: clamp_facing_spec(target.x - pos.x) as i64,
            y: clamp_facing_spec(target.y - pos.y) as i64,
        }
    }
}

/// Orients the ship toward the aim target, when one exists; with no target
/// yet, the ship keeps its previous orientation.
pub fn look_at_mouse(ship: &mut Ship, aim: Option<Vec2i>)
    requires
        wf_ship(*old(ship)),
        aim matches Some(target) ==> wf_vec(target),
    ensures
        *final(ship) == match aim {
            Some(target) => (Ship {
                pose: Pose {
                    pos: old(ship).pose.pos,
                    facing: facing_toward_spec(old(ship).pose.pos, target, old(ship).pose.facing),
                },
                ..*old(ship)
            }),
            None => *old(ship),
        },
        wf_ship(*final(ship)),
{
    match aim {
        Some(target) => {
            if !(target.x == ship.pose.pos.x && target.y == ship.pose.pos.y) {
                let fx = clamp_facing(target.x - ship.pose.pos.x);
                let fy = clamp_facing(target.y - ship.pose.pos.y);
                proof {
                    assert(fx != 0 || fy != 0);
                }
                ship.pose.facing = Vec2i { x: fx, y: fy };
            }
        },
        None => {},
    }
}

} // verus!
