//! Movement input of a character.

use vstd::prelude::*;
use crate::ability::{ControlAction, contains_action};

verus! {

/// Direction of movement asked for by the pressed actions, on the ground
/// plane and before turning it to the camera: `x` grows to the right, `z`
/// grows backwards. Opposite actions cancel out.
pub fn movement_axes(pressed: &Vec<ControlAction>) -> (axes: (i8, i8))
    ensures
        axes.0 == (if pressed@.contains(ControlAction::Right) { 1int } else { 0int }) - (if pressed@.contains(ControlAction::Left) { 1int } else { 0int }),
        axes.1 == (if pressed@.contains(ControlAction::Backward) { 1int } else { 0int }) - (if pressed@.contains(ControlAction::Forward) { 1int } else { 0int }),
{
    let mut x: i8 = 0;
    let mut z: i8 = 0;
    if contains_action(pressed, ControlAction::Left) {
        x = x - 1;
    }
    if contains_action(pressed, ControlAction::Right) {
        x = x + 1;
    }
    if contains_action(pressed, ControlAction::Forward) {
        z = z - 1;
    }
    if contains_action(pressed, ControlAction::Backward) {
        z = z + 1;
    }
    (x, z)
}

/// Direction of movement of the earliest player controller, from the keys
/// held: `W` forwards along `x`, `S` backwards, `A` and `D` along `z`.
pub fn key_axes(w: bool, s: bool, a: bool, d: bool) -> (axes: (i8, i8))
    ensures
        axes.0 == (if w { 1int } else { 0int }) - (if s { 1int } else { 0int }),
        axes.1 == (if d { 1int } else { 0int }) - (if a { 1int } else { 0int }),
{
    let mut x: i8 = 0;
    let mut z: i8 = 0;
    if w {
        x = x + 1;
    }
    if s {
        x = x - 1;
    }
    if a {
        z = z - 1;
    }
    if d {
        z = z + 1;
    }
    (x, z)
}

/// Whether a character jumps this frame: only when it stands on the floor
/// and jump is held.
pub fn jumps(on_floor: bool, pressed: &Vec<ControlAction>) -> (j: bool)
    ensures
        j == (on_floor && pressed@.contains(ControlAction::Jump)),
{
    on_floor && contains_action(pressed, ControlAction::Jump)
}

} // verus!
