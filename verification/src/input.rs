use vstd::prelude::*;
use crate::facing::FacingDirection;

verus! {

/// Which of the four movement keys are held down during one tick.
#[derive(Clone, Copy, Debug, PartialEq, Eq, Structural)]
pub struct KeyState {
    pub left: bool,
    pub right: bool,
    pub up: bool,
    pub down: bool,
}

/// The movement direction before scaling to unit length: each axis is
/// -1, 0 or 1. Positive `x` points right, positive `y` points up.
#[derive(Clone, Copy, Debug, PartialEq, Eq, Structural)]
pub struct InputVector {
    pub x: i8,
    pub y: i8,
}

/// What one pass over the keys yields.
#[derive(Clone, Copy, Debug, PartialEq, Eq, Structural)]
pub struct ResolvedInput {
    pub direction: InputVector,
    pub facing: FacingDirection,
    pub is_walking: bool,
}

impl KeyState {
    /// No key is held.
    pub open spec fn none_pressed(self) -> bool {
        !self.left && !self.right && !self.up && !self.down
    }

    /// How many of the four keys are held.
    pub open spec fn pressed_count(self) -> int {
        (if self.left { 1int } else { 0 }) + (if self.right { 1int } else { 0 })
            + (if self.up { 1int } else { 0 }) + (if self.down { 1int } else { 0 })
    }

    /// The horizontal axis: right wins over left.
    pub open spec fn axis_x(self) -> i8 {
        if self.right {
            1i8
        } else if self.left {
            -1i8
        } else {
            0i8
        }
    }

    /// The vertical axis: down wins over up.
    pub open spec fn axis_y(self) -> i8 {
        if self.down {
            -1i8
        } else if self.up {
            1i8
        } else {
            0i8
        }
    }

    /// The facing after this pass: the last held key in the order left, right,
    /// up, down decides; with no key held the earlier facing stays.
    pub open spec fn facing_after(self, before: FacingDirection) -> FacingDirection {
        if self.down {
            FacingDirection::DOWN
        } else if self.up {
            FacingDirection::UP
        } else if self.right {
            FacingDirection::RIGHT
        } else if self.left {
            FacingDirection::LEFT
        } else {
            before
        }
    }

    /// The whole outcome of one pass over the keys.
    pub open spec fn resolved(self, before: FacingDirection) -> ResolvedInput {
        ResolvedInput {
            direction: InputVector { x: self.axis_x(), y: self.axis_y() },
            facing: self.facing_after(before),
            is_walking: !self.none_pressed(),
        }
    }
}

impl InputVector {
    pub open spec fn is_zero(self) -> bool {
        self.x == 0 && self.y == 0
    }

    /// The squared Euclidean length, as a mathematical integer.
    pub open spec fn spec_length_squared(self) -> int {
        self.x * self.x + self.y * self.y
    }

    /// Each axis is -1, 0 or 1.
    pub open spec fn is_signs(self) -> bool {
        -1 <= self.x <= 1 && -1 <= self.y <= 1
    }

    /// The squared Euclidean length. For a vector of axis signs it is 0 at
    /// rest, 1 along one axis and 2 on a diagonal; dividing both axes by its
    /// square root gives the unit vector of the same direction.
    pub fn length_squared(&self) -> (n: u16)
        ensures
            n == self.spec_length_squared(),
            n == 0 <==> self.is_zero(),
            self.is_signs() ==> n <= 2,
    {
        let x: i32 = self.x as i32;
        let y: i32 = self.y as i32;
        proof {
            lemma_square_bounds(self.x);
            lemma_square_bounds(self.y);
        }
        (x * x + y * y) as u16
    }
}

/// The square of an 8-bit value: zero only for zero, 1 for a sign, and never
/// above 2^14.
proof fn lemma_square_bounds(v: i8)
    ensures
        0 <= v * v <= 16384,
        v * v == 0 <==> v == 0,
        -1 <= v <= 1 ==> v * v == (if v == 0 { 0int } else { 1int }),
{
    assert(0 <= v * v <= 16384 && (v * v == 0 <==> v == 0)) by (nonlinear_arith)
        requires
            -128 <= v <= 127,
    ;
    if -1 <= v <= 1 {
        assert(v * v == (if v == 0 { 0int } else { 1int })) by (nonlinear_arith)
            requires
                -1 <= v <= 1,
        ;
    }
}

/// Reads the four keys in the order left, right, up, down. Each held key sets
/// its axis and the facing, so a later key overwrites an earlier one. The
/// player walks exactly when the direction is not zero.
pub fn resolve_input(keys: &KeyState, facing: FacingDirection) -> (out: ResolvedInput)
    ensures
        out == keys.resolved(facing),
        out.direction.x == keys.axis_x(),
        out.direction.y == keys.axis_y(),
        out.direction.is_signs(),
        out.is_walking <==> !out.direction.is_zero(),
{
    let mut x: i8 = 0;
    let mut y: i8 = 0;
    let mut facing = facing;
    if keys.left {
        x = -1;
        facing = FacingDirection::LEFT;
    }
    if keys.right {
        x = 1;
        facing = FacingDirection::RIGHT;
    }
    if keys.up {
        y = 1;
        facing = FacingDirection::UP;
    }
    if keys.down {
        y = -1;
        facing = FacingDirection::DOWN;
    }
    let is_walking = x != 0 || y != 0;
    ResolvedInput { direction: InputVector { x, y }, facing, is_walking }
}

/// With exactly one key held, the direction has length one, lies on that
/// key's axis with that key's sign, and the facing is that key's side.
pub proof fn lemma_single_key(keys: KeyState, before: FacingDirection)
    requires
        keys.pressed_count() == 1,
    ensures
        keys.resolved(before).direction.spec_length_squared() == 1,
        keys.resolved(before).is_walking,
        keys.left ==> keys.resolved(before).direction == (InputVector { x: -1i8, y: 0 })
            && keys.resolved(before).facing == FacingDirection::LEFT,
        keys.right ==> keys.resolved(before).direction == (InputVector { x: 1, y: 0 })
            && keys.resolved(before).facing == FacingDirection::RIGHT,
        keys.up ==> keys.resolved(before).direction == (InputVector { x: 0, y: 1 })
            && keys.resolved(before).facing == FacingDirection::UP,
        keys.down ==> keys.resolved(before).direction == (InputVector { x: 0, y: -1i8 })
            && keys.resolved(before).facing == FacingDirection::DOWN,
{
    lemma_square_bounds(keys.axis_x());
    lemma_square_bounds(keys.axis_y());
}

/// With both keys of one axis held, the later one in the reading order
/// decides that axis: right on the horizontal axis, down on the vertical one.
/// The facing goes to the last held key of the whole pass.
pub proof fn lemma_opposite_keys(keys: KeyState, before: FacingDirection)
    ensures
        keys.left && keys.right ==> keys.resolved(before).direction.x == 1,
        keys.up && keys.down ==> keys.resolved(before).direction.y == -1,
        keys.left && keys.right && !keys.up && !keys.down ==> keys.resolved(before).facing
            == FacingDirection::RIGHT,
        keys.up && keys.down ==> keys.resolved(before).facing == FacingDirection::DOWN,
{
}

/// A key held on each axis gives a diagonal: both axes are set, and the
/// squared length is 2, so the unit vector is each axis over the square root
/// of 2.
pub proof fn lemma_diagonal(keys: KeyState, before: FacingDirection)
    requires
        keys.left || keys.right,
        keys.up || keys.down,
    ensures
        keys.resolved(before).direction.x != 0,
        keys.resolved(before).direction.y != 0,
        keys.resolved(before).direction.spec_length_squared() == 2,
{
    lemma_square_bounds(keys.axis_x());
    lemma_square_bounds(keys.axis_y());
}

/// The player walks exactly when the resolved direction is not zero, which is
/// exactly when some key is held; the facing changes only then.
pub proof fn lemma_walking_iff_moving(keys: KeyState, before: FacingDirection)
    ensures
        keys.resolved(before).is_walking <==> !keys.resolved(before).direction.is_zero(),
        keys.resolved(before).is_walking <==> keys.pressed_count() > 0,
        keys.resolved(before).direction.is_signs(),
        !keys.resolved(before).is_walking ==> keys.resolved(before).facing == before,
{
}

} // verus!
