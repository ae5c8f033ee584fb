use vstd::prelude::*;
use vstd::arithmetic::div_mod::{
    lemma_fundamental_div_mod, lemma_mod_multiples_vanish, lemma_mod_self_0, lemma_small_mod,
};
use crate::facing::FacingDirection;

verus! {

/// Frames in one walking cycle.
pub const WALK_CYCLE: usize = 8;

/// Frames in one idle cycle.
pub const IDLE_CYCLE: usize = 4;

/// Cells of the sprite sheet: eight rows of eight.
pub const GRID_CELLS: usize = 64;

/// The first cell of a cycle, for each facing.
#[derive(Clone, Copy, Debug, PartialEq, Eq, Structural)]
pub struct AnimIndices {
    pub left: usize,
    pub right: usize,
    pub up: usize,
    pub down: usize,
}

/// The first cells of the walking and of the idle cycles.
#[derive(Clone, Copy, Debug, PartialEq, Eq, Structural)]
pub struct AnimationInd {
    pub walk: AnimIndices,
    pub idle: AnimIndices,
}

/// The number of frames of the walking or of the idle cycle.
pub open spec fn cycle_length(walking: bool) -> int {
    if walking {
        8
    } else {
        4
    }
}

/// The frame that follows `index` in the cycle that starts at `base`: one
/// step further within the cycle, wrapping at its end, counted from `base`.
/// The step is taken on `index` as it stands, whatever cycle it came from.
pub open spec fn frame_after(index: usize, base: usize, walking: bool) -> int {
    (index + 1) % cycle_length(walking) + base
}

impl AnimIndices {
    pub open spec fn spec_offset(self, facing: FacingDirection) -> usize {
        match facing {
            FacingDirection::LEFT => self.left,
            FacingDirection::RIGHT => self.right,
            FacingDirection::UP => self.up,
            FacingDirection::DOWN => self.down,
        }
    }

    /// The first cell for a facing.
    pub fn offset(&self, facing: FacingDirection) -> (cell: usize)
        ensures
            cell == self.spec_offset(facing),
    {
        match facing {
            FacingDirection::LEFT => self.left,
            FacingDirection::RIGHT => self.right,
            FacingDirection::UP => self.up,
            FacingDirection::DOWN => self.down,
        }
    }

    /// Every cycle of `length` frames that starts at one of these cells ends
    /// within the sheet.
    pub open spec fn within_grid(self, length: int) -> bool {
        &&& self.left + length <= 64
        &&& self.right + length <= 64
        &&& self.up + length <= 64
        &&& self.down + length <= 64
    }
}

impl AnimationInd {
    pub open spec fn spec_base(self, facing: FacingDirection, walking: bool) -> usize {
        if walking {
            self.walk.spec_offset(facing)
        } else {
            self.idle.spec_offset(facing)
        }
    }

    /// Every cycle lies within the sheet.
    pub open spec fn fits_grid(self) -> bool {
        self.walk.within_grid(8) && self.idle.within_grid(4)
    }

    /// Tells whether every cycle lies within the sheet.
    pub fn is_within_grid(&self) -> (ok: bool)
        ensures
            ok == self.fits_grid(),
    {
        let walk_last: usize = GRID_CELLS - WALK_CYCLE;
        let idle_last: usize = GRID_CELLS - IDLE_CYCLE;
        self.walk.left <= walk_last && self.walk.right <= walk_last && self.walk.up <= walk_last
            && self.walk.down <= walk_last && self.idle.left <= idle_last && self.idle.right
            <= idle_last && self.idle.up <= idle_last && self.idle.down <= idle_last
    }

    /// The layout of the sprite sheet: walking cycles in the upper four rows,
    /// idle cycles, half a row each, in the lower four.
    pub fn sprite_sheet() -> (table: Self)
        ensures
            table.walk == (AnimIndices { left: 8, right: 0, up: 24, down: 16 }),
            table.idle == (AnimIndices { left: 40, right: 32, up: 56, down: 48 }),
            table.fits_grid(),
    {
        AnimationInd {
            walk: AnimIndices { right: 0, left: 8, up: 24, down: 16 },
            idle: AnimIndices { right: 32, left: 40, up: 56, down: 48 },
        }
    }

    /// The first cell of the cycle for a facing and a gait.
    pub fn base(&self, facing: FacingDirection, walking: bool) -> (cell: usize)
        ensures
            cell == self.spec_base(facing, walking),
    {
        if walking {
            self.walk.offset(facing)
        } else {
            self.idle.offset(facing)
        }
    }
}

/// The frame to show after a timer expiry. It lies in the cycle of the
/// current facing and gait.
pub fn next_frame(index: usize, indices: &AnimationInd, facing: FacingDirection, walking: bool) -> (frame: usize)
    requires
        indices.spec_base(facing, walking) + cycle_length(walking) - 1 <= usize::MAX,
    ensures
        frame == frame_after(index, indices.spec_base(facing, walking), walking),
        indices.spec_base(facing, walking) <= frame < indices.spec_base(facing, walking)
            + cycle_length(walking),
        indices.fits_grid() ==> frame < GRID_CELLS,
{
    let base = indices.base(facing, walking);
    let length: usize = if walking { WALK_CYCLE } else { IDLE_CYCLE };
    let step = (index % length + 1) % length;
    step + base
}

/// One animation tick, given whether the timer ran out during it: the frame
/// moves on when it did and stays when it did not.
pub fn advance_frame(
    index: usize,
    finished: bool,
    indices: &AnimationInd,
    facing: FacingDirection,
    walking: bool,
) -> (frame: usize)
    requires
        indices.spec_base(facing, walking) + cycle_length(walking) - 1 <= usize::MAX,
    ensures
        finished ==> frame == frame_after(index, indices.spec_base(facing, walking), walking),
        finished ==> indices.spec_base(facing, walking) <= frame < indices.spec_base(
            facing,
            walking,
        ) + cycle_length(walking),
        !finished ==> frame == index,
{
    if finished {
        next_frame(index, indices, facing, walking)
    } else {
        index
    }
}

/// A frame that stands `k` steps after the start of a cycle is followed by
/// the frame `k + 1` steps, wrapped to the cycle's length, after the start of
/// the cycle that is now active. Within one cycle the frames thus follow one
/// another and wrap at its end; after a change of facing or gait the position
/// reached is carried over into the new cycle. This holds for starts that
/// are a multiple of the active cycle's length, as all starts of the sheet
/// are.
pub proof fn lemma_step_keeps_position(from_base: usize, to_base: usize, k: int, walking: bool)
    requires
        0 <= k,
        from_base + k <= usize::MAX,
        (from_base as int) % cycle_length(walking) == 0,
    ensures
        frame_after((from_base + k) as usize, to_base, walking) == to_base + (k + 1)
            % cycle_length(walking),
        0 <= k < cycle_length(walking) - 1 ==> frame_after(
            (from_base + k) as usize,
            to_base,
            walking,
        ) == to_base + k + 1,
        k == cycle_length(walking) - 1 ==> frame_after(
            (from_base + k) as usize,
            to_base,
            walking,
        ) == to_base,
{
    let length = cycle_length(walking);
    let start = from_base as int;
    lemma_fundamental_div_mod(start, length);
    lemma_mod_multiples_vanish(start / length, k + 1, length);
    assert(start + k + 1 == length * (start / length) + (k + 1));
    if k < length - 1 {
        lemma_small_mod((k + 1) as nat, length as nat);
    } else if k == length - 1 {
        lemma_mod_self_0(length);
    }
}

} // verus!
