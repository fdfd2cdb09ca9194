//! How far a player's square moves in one tick.

use vstd::prelude::*;
use crate::input::{Action, ActionQueue, QueueView};

verus! {

/// The distance that a square covers along one axis in one tick.
pub const SPEED: i32 = 20;

/// A step in the plane: `x` grows to the right, `y` grows upwards.
#[derive(Clone, Copy, Debug, PartialEq, Eq, Structural)]
pub struct Displacement {
    pub x: i32,
    pub y: i32,
}

/// The pull along one axis: one step forward if only `forward` is pressed,
/// one step back if only `backward` is, none if both or neither are.
pub open spec fn pull(forward: bool, backward: bool) -> int {
    (if forward { SPEED as int } else { 0 }) - (if backward { SPEED as int } else { 0 })
}

/// The step that the pressed actions of `actions` add up to. Opposite
/// actions cancel; whether an action was just pressed or is held makes no
/// difference.
pub open spec fn spec_displacement(actions: QueueView) -> Displacement {
    Displacement {
        x: pull(actions.is_pressed(Action::Right), actions.is_pressed(Action::Left)) as i32,
        y: pull(actions.is_pressed(Action::Up), actions.is_pressed(Action::Down)) as i32,
    }
}

/// The step that a square takes in this tick, from what its player presses.
pub fn displacement(actions: &ActionQueue) -> (delta: Displacement)
    ensures
        delta == spec_displacement(actions@),
        delta.x == pull(actions@.is_pressed(Action::Right), actions@.is_pressed(Action::Left)),
        delta.y == pull(actions@.is_pressed(Action::Up), actions@.is_pressed(Action::Down)),
{
    let mut delta = Displacement { x: 0, y: 0 };
    if actions.is_pressed(Action::Up) {
        delta.y = delta.y + SPEED;
    }
    if actions.is_pressed(Action::Left) {
        delta.x = delta.x - SPEED;
    }
    if actions.is_pressed(Action::Down) {
        delta.y = delta.y - SPEED;
    }
    if actions.is_pressed(Action::Right) {
        delta.x = delta.x + SPEED;
    }
    delta
}

/// A square never moves further than [`SPEED`] along an axis, and it rests
/// when nothing is pressed.
pub proof fn lemma_displacement_bounded(actions: QueueView)
    ensures
        -SPEED <= spec_displacement(actions).x <= SPEED,
        -SPEED <= spec_displacement(actions).y <= SPEED,
        actions.current == Set::<Action>::empty() ==> spec_displacement(actions) == (Displacement {
            x: 0,
            y: 0,
        }),
{
}

} // verus!
