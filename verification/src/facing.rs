use vstd::prelude::*;

verus! {

/// The four cardinal directions the player sprite can face.
#[derive(Clone, Copy, Debug, PartialEq, Eq, Structural)]
pub enum FacingDirection {
    LEFT,
    RIGHT,
    UP,
    DOWN,
}

} // verus!
