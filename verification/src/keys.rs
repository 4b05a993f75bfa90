//! Reading the arrow keys out of the engine's keyboard state.

use bevy::input::keyboard::KeyCode;
use bevy::input::Input;
use std::hash::Hash;
use vstd::prelude::*;

use crate::movement::{ArrowKeys, InputVector};

verus! {

/// One of the four keys that steer the camera.
#[derive(Clone, Copy, Debug, PartialEq, Eq, Structural)]
pub enum Arrow {
    Up,
    Down,
    Left,
    Right,
}

/// The engine's key identifiers; opaque to the proofs.
#[verifier::external_type_specification]
#[verifier::external_body]
pub struct ExKeyCode(KeyCode);

/// The engine's record of which inputs are held; opaque to the proofs, which
/// speak of it through `held_arrows`.
#[verifier::external_type_specification]
#[verifier::external_body]
#[verifier::reject_recursive_types(T)]
pub struct ExInput<T: Copy + Eq + Hash + Send + Sync + 'static>(Input<T>);

/// The arrow keys that the keyboard state holds as pressed: those between a
/// press and a release.
pub uninterp spec fn held_arrows(keyboard: Input<KeyCode>) -> Set<Arrow>;

/// Calls `Input::pressed` with the key code of `arrow`. The contract is
/// believed, not proved: the answer is whether that key is in the set of
/// pressed keys, which `held_arrows` names.
#[verifier::external_body]
fn arrow_pressed(keyboard: &Input<KeyCode>, arrow: Arrow) -> (held: bool)
    ensures
        held == held_arrows(*keyboard).contains(arrow),
{
    let code = match arrow {
        Arrow::Up => KeyCode::Up,
        Arrow::Down => KeyCode::Down,
        Arrow::Left => KeyCode::Left,
        Arrow::Right => KeyCode::Right,
    };
    keyboard.pressed(code)
}

impl ArrowKeys {
    /// The key state in which exactly the arrows of `held` are down.
    pub open spec fn of(held: Set<Arrow>) -> ArrowKeys {
        ArrowKeys {
            up: held.contains(Arrow::Up),
            down: held.contains(Arrow::Down),
            left: held.contains(Arrow::Left),
            right: held.contains(Arrow::Right),
        }
    }

    /// Reads the four arrow keys from the keyboard state.
    pub fn read(keyboard: &Input<KeyCode>) -> (keys: ArrowKeys)
        ensures
            keys == ArrowKeys::of(held_arrows(*keyboard)),
    {
        ArrowKeys {
            up: arrow_pressed(keyboard, Arrow::Up),
            down: arrow_pressed(keyboard, Arrow::Down),
            left: arrow_pressed(keyboard, Arrow::Left),
            right: arrow_pressed(keyboard, Arrow::Right),
        }
    }
}

/// The movement that the keyboard asks for in this frame: `None` where no
/// arrow is held or the held ones cancel out, else the summed input vector.
pub fn movement_input(keyboard: &Input<KeyCode>) -> (plan: Option<InputVector>)
    ensures
        plan == ArrowKeys::of(held_arrows(*keyboard)).plan(),
{
    ArrowKeys::read(keyboard).plan_move()
}

} // verus!
