//! From the state of the four arrow keys to the camera's movement input.

use vstd::prelude::*;

verus! {

/// Distance the camera covers per second of held input, in world units.
pub const MOVE_SPEED: u8 = 5;

/// Which of the four arrow keys are held down during a frame.
#[derive(Clone, Copy, Debug, PartialEq, Eq, Structural)]
pub struct ArrowKeys {
    pub up: bool,
    pub down: bool,
    pub left: bool,
    pub right: bool,
}

/// The movement input on the camera's horizontal plane, before it is
/// normalised: `x` points to the camera's right, `z` points backwards.
/// The vertical component is always zero and is not stored.
#[derive(Clone, Copy, Debug, PartialEq, Eq, Structural)]
pub struct InputVector {
    pub x: i8,
    pub z: i8,
}

/// Contribution of a pair of opposing keys to one axis: the key of the
/// positive direction adds one, the key of the negative direction takes one
/// away.
pub open spec fn axis(negative: bool, positive: bool) -> int {
    (if positive { 1int } else { 0int }) - (if negative { 1int } else { 0int })
}

impl ArrowKeys {
    /// The sum of the unit vectors of the held keys, along the right axis.
    pub open spec fn x(self) -> int {
        axis(self.left, self.right)
    }

    /// The sum of the unit vectors of the held keys, along the backward axis.
    pub open spec fn z(self) -> int {
        axis(self.up, self.down)
    }

    /// The movement the keys ask for: nothing where the held keys cancel out
    /// on both axes, else their summed input vector.
    pub open spec fn plan(self) -> Option<InputVector> {
        if self.x() == 0 && self.z() == 0 {
            None
        } else {
            Some(InputVector { x: self.x() as i8, z: self.z() as i8 })
        }
    }

    /// No key held.
    pub fn released() -> (keys: ArrowKeys)
        ensures
            keys == (ArrowKeys { up: false, down: false, left: false, right: false }),
    {
        ArrowKeys { up: false, down: false, left: false, right: false }
    }

    /// Sums the unit vectors of the held keys: up is `-z`, down is `+z`,
    /// left is `-x`, right is `+x`.
    pub fn input_vector(&self) -> (v: InputVector)
        ensures
            v.x == self.x(),
            v.z == self.z(),
            v.in_range(),
    {
        let mut x: i8 = 0;
        let mut z: i8 = 0;
        if self.up {
            z = z - 1;
        }
        if self.down {
            z = z + 1;
        }
        if self.left {
            x = x - 1;
        }
        if self.right {
            x = x + 1;
        }
        InputVector { x, z }
    }

    /// Decides the frame's movement: `None` leaves the camera where it is,
    /// `Some(v)` moves it along the non-zero input vector `v`.
    pub fn plan_move(&self) -> (plan: Option<InputVector>)
        ensures
            plan == self.plan(),
            plan is None <==> (self.up == self.down && self.left == self.right),
            plan matches Some(v) ==> v.in_range() && !v.is_zero(),
    {
        let v = self.input_vector();
        if v.x == 0 && v.z == 0 {
            None
        } else {
            Some(v)
        }
    }
}

impl InputVector {
    /// Each component is -1, 0 or 1, as a sum of arrow keys always is.
    pub open spec fn in_range(self) -> bool {
        -1 <= self.x <= 1 && -1 <= self.z <= 1
    }

    pub open spec fn is_zero(self) -> bool {
        self.x == 0 && self.z == 0
    }

    /// The square of the vector's length: by its square root the vector is
    /// divided when it is normalised.
    pub open spec fn norm_squared(self) -> int {
        self.x * self.x + self.z * self.z
    }
}

/// With no arrow key held the camera stays where it is.
pub proof fn lemma_released_keys_rest()
    ensures
        (ArrowKeys { up: false, down: false, left: false, right: false }).plan() is None,
{
}

/// Holding both keys of an axis is the same as holding neither.
pub proof fn lemma_opposing_keys_cancel(keys: ArrowKeys)
    ensures
        (ArrowKeys { up: true, down: true, ..keys }).plan()
            == (ArrowKeys { up: false, down: false, ..keys }).plan(),
        (ArrowKeys { left: true, right: true, ..keys }).plan()
            == (ArrowKeys { left: false, right: false, ..keys }).plan(),
{
}

/// A planned movement is a vector of squared length one (along an axis) or
/// two (along a diagonal), so it can always be normalised.
pub proof fn lemma_planned_vector_has_length(keys: ArrowKeys)
    ensures
        keys.plan() matches Some(v) ==> v.in_range() && (v.norm_squared() == 1
            || v.norm_squared() == 2),
{
    let x = keys.x();
    let z = keys.z();
    assert(x * x == (if x == 0 { 0int } else { 1int })) by (nonlinear_arith)
        requires
            -1 <= x <= 1,
    ;
    assert(z * z == (if z == 0 { 0int } else { 1int })) by (nonlinear_arith)
        requires
            -1 <= z <= 1,
    ;
}

/// Swapping each key with its opposite turns the movement round.
pub proof fn lemma_mirrored_keys_reverse(keys: ArrowKeys)
    ensures
        ({
            let mirrored = ArrowKeys {
                up: keys.down,
                down: keys.up,
                left: keys.right,
                right: keys.left,
            };
            mirrored.x() == -keys.x() && mirrored.z() == -keys.z()
        }),
{
}

} // verus!
