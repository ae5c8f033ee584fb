//! Control logic for a keyboard-driven, top-down player sprite: input
//! resolution, the choice of a motion command, the animation clock and the
//! selection of sprite-sheet frames.
//!
//! Everything here works on plain values. The engine side reads the keyboard
//! and the frame clock, hands their values in, and carries out what comes back.
use vstd::prelude::*;

pub mod animation;
pub mod clock;
pub mod facing;
pub mod input;
pub mod lookup;
pub mod motion;
pub mod player;
