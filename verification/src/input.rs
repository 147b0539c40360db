//! Input interpretation: once per tick the raw pressed-key state is turned
//! into discrete gameplay intents — a movement axis pair from opposed keys,
//! and a fire intent while the fire key is held.

use vstd::prelude::*;

use crate::geom::Vec2i;

verus! {

/// A discrete per-tick gameplay command derived from raw input.
#[derive(Clone, Copy, PartialEq, Eq, Structural, Debug)]
pub enum InputAction {
    /// Move along the given axis pair; each component is -1, 0 or 1.
    Move(Vec2i),
    /// Request one shot from the weapon.
    Fire,
}

pub open spec fn wf_intent(a: InputAction) -> bool {
    match a {
        InputAction::Move(d) => -1 <= d.x <= 1 && -1 <= d.y <= 1,
        InputAction::Fire => true,
    }
}

/// The axis value of an opposed key pair: the positive key alone gives 1,
/// the negative key alone gives -1, both or neither cancel to 0.
pub open spec fn axis_spec(neg: bool, pos: bool) -> int {
    if neg == pos {
        0
    } else if neg {
        -1
    } else {
        1
    }
}

/// Opposed inputs cancel: whenever both keys of an axis pair are in the same
/// state — both held or both released — the axis value is exactly zero.
pub proof fn lemma_opposed_inputs_cancel(neg: bool, pos: bool)
    requires
        neg == pos,
    ensures
        axis_spec(neg, pos) == 0,
{
}

/// The intents one tick of raw key state produces: a `Move` when either axis
/// is live, then a `Fire` while the fire key is held.
pub open spec fn proto_input_spec(
    left: bool,
    right: bool,
    up: bool,
    down: bool,
    fire: bool,
) -> Seq<InputAction> {
    let h = axis_spec(left, right);
    let v = axis_spec(down, up);
    let moves: Seq<InputAction> = if h != 0 || v != 0 {
        seq![InputAction::Move(Vec2i { x: h as i64, y: v as i64 })]
    } else {
        Seq::empty()
    };
    let fires: Seq<InputAction> = if fire {
        seq![InputAction::Fire]
    } else {
        Seq::empty()
    };
    moves + fires
}

/// Reads the pressed state of the four movement keys and the fire key and
/// emits this tick's intents.
pub fn proto_input(left: bool, right: bool, up: bool, down: bool, fire: bool) -> (r: Vec<
    InputAction,
>)
    ensures
        r@ == proto_input_spec(left, right, up, down, fire),
        forall|i: int| 0 <= i < r@.len() ==> wf_intent(#[trigger] r@[i]),
{
    let mut r: Vec<InputAction> = Vec::new();
    let horizontal: i64 = if left && !right {
        -1
    } else if right && !left {
        1
    } else {
        0
    };
    let vertical: i64 = if up && !down {
        1
    } else if down && !up {
        -1
    } else {
        0
    };
    if horizontal != 0 || vertical != 0 {
        r.push(InputAction::Move(Vec2i { x: horizontal, y: vertical }));
    }
    if fire {
        r.push(InputAction::Fire);
    }
    proof {
        assert(r@ =~= proto_input_spec(left, right, up, down, fire));
    }
    r
}

/// Whether a tick's intents ask for a shot.
pub open spec fn has_fire(intents: Seq<InputAction>) -> bool {
    exists|i: int| 0 <= i < intents.len() && intents[i] == InputAction::Fire
}

/// The raw device state one tick consumes: pressed keys and, when the cursor
/// is inside the window, its position projected into world space.
#[derive(Clone, Copy, Debug)]
pub struct InputState {
    pub left: bool,
    pub right: bool,
    pub up: bool,
    pub down: bool,
    pub fire: bool,
    pub cursor: Option<Vec2i>,
}

/// The cursor-grab change a tick's clicks ask for: `Some(true)` to grab and
/// hide the cursor on a fresh click, `Some(false)` to release it on escape
/// (escape wins when both arrive), `None` to leave it as it is.
pub fn grab_mouse_decision(clicked: bool, escape: bool) -> (r: Option<bool>)
    ensures
        r == if escape {
            Some(false)
        } else if clicked {
            Some(true)
        } else {
            None::<bool>
        },
{
    if escape {
        Some(false)
    } else if clicked {
        Some(true)
    } else {
        None
    }
}

} // verus!
