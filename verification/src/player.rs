use vstd::prelude::*;
use crate::animation::{
    advance_frame, cycle_length, frame_after, lemma_step_keeps_position, AnimIndices, AnimationInd,
};
use crate::clock::{
    lemma_tick_exact_period, tick_elapsed, tick_expiries, AnimationTimer, ANIMATION_PERIOD_NANOS,
};
use crate::facing::FacingDirection;
use crate::input::{resolve_input, KeyState};
use crate::motion::{plan_motion, spec_plan_motion, MotionCommand, MotionPolicy};

verus! {

/// Everything the update loop keeps about the player between ticks.
#[derive(Clone, Copy, Debug, PartialEq, Eq, Structural)]
pub struct PlayerState {
    pub facing: FacingDirection,
    pub is_walking: bool,
    pub frame_index: usize,
    pub indices: AnimationInd,
    pub timer: AnimationTimer,
    pub policy: MotionPolicy,
}

impl PlayerState {
    /// The frame table fits the sheet and the timer is within its period.
    pub open spec fn wf(&self) -> bool {
        self.indices.fits_grid() && self.timer.wf()
    }

    /// The player as it is created: facing down, at rest, on the first cell,
    /// with the sheet's frame table and a timer of a tenth of a second.
    pub fn new(policy: MotionPolicy) -> (player: Self)
        ensures
            player.facing == FacingDirection::DOWN,
            !player.is_walking,
            player.frame_index == 0,
            player.indices.walk == (AnimIndices {
                left: 8,
                right: 0,
                up: 24,
                down: 16,
            }),
            player.indices.idle == (AnimIndices {
                left: 40,
                right: 32,
                up: 56,
                down: 48,
            }),
            player.timer == (AnimationTimer { period_nanos: 100_000_000, elapsed_nanos: 0 }),
            player.policy == policy,
            player.wf(),
    {
        PlayerState {
            facing: FacingDirection::DOWN,
            is_walking: false,
            frame_index: 0,
            indices: AnimationInd::sprite_sheet(),
            timer: AnimationTimer::repeating(ANIMATION_PERIOD_NANOS),
            policy,
        }
    }

    /// One fixed tick of input: resolves the keys, records facing and gait,
    /// and returns the motion command of the player's policy.
    pub fn apply_input(&mut self, keys: &KeyState) -> (cmd: MotionCommand)
        ensures
            cmd == spec_plan_motion(old(self).policy, keys.resolved(old(self).facing)),
            *final(self) == (PlayerState {
                facing: keys.facing_after(old(self).facing),
                is_walking: !keys.none_pressed(),
                ..*old(self)
            }),
            old(self).wf() ==> final(self).wf(),
    {
        let input = resolve_input(keys, self.facing);
        self.facing = input.facing;
        self.is_walking = input.is_walking;
        plan_motion(self.policy, &input)
    }

    /// One frame of animation: advances the timer by `delta_nanos` and, when
    /// it ran out, moves to the next frame of the cycle for the current
    /// facing and gait. Tells whether the frame moved on.
    pub fn animate(&mut self, delta_nanos: u64) -> (advanced: bool)
        requires
            old(self).indices.spec_base(old(self).facing, old(self).is_walking) + cycle_length(
                old(self).is_walking,
            ) - 1 <= usize::MAX,
        ensures
            advanced == (tick_expiries(
                old(self).timer.period_nanos,
                old(self).timer.elapsed_nanos,
                delta_nanos,
            ) > 0),
            final(self).timer.period_nanos == old(self).timer.period_nanos,
            final(self).timer.elapsed_nanos == tick_elapsed(
                old(self).timer.period_nanos,
                old(self).timer.elapsed_nanos,
                delta_nanos,
            ),
            advanced ==> final(self).frame_index == frame_after(
                old(self).frame_index,
                old(self).indices.spec_base(old(self).facing, old(self).is_walking),
                old(self).is_walking,
            ),
            advanced ==> old(self).indices.spec_base(old(self).facing, old(self).is_walking)
                <= final(self).frame_index < old(self).indices.spec_base(
                old(self).facing,
                old(self).is_walking,
            ) + cycle_length(old(self).is_walking),
            !advanced ==> final(self).frame_index == old(self).frame_index,
            final(self).facing == old(self).facing,
            final(self).is_walking == old(self).is_walking,
            final(self).indices == old(self).indices,
            final(self).policy == old(self).policy,
            old(self).indices.fits_grid() ==> final(self).wf(),
    {
        let finished = self.timer.tick(delta_nanos);
        self.frame_index = advance_frame(
            self.frame_index,
            finished,
            &self.indices,
            self.facing,
            self.is_walking,
        );
        finished
    }
}

/// When the time added brings the timer exactly to its period, the timer
/// runs out once and the frame moves one step on within its cycle: from
/// position `k` to position `k + 1`, or back to the start from the last one.
pub proof fn lemma_frame_after_one_period(
    period: u64,
    elapsed: u64,
    delta: u64,
    base: usize,
    k: int,
    walking: bool,
)
    requires
        0 < period,
        elapsed + delta == period,
        0 <= k < cycle_length(walking),
        base + k <= usize::MAX,
        (base as int) % cycle_length(walking) == 0,
    ensures
        tick_expiries(period, elapsed, delta) == 1,
        tick_elapsed(period, elapsed, delta) == 0,
        frame_after((base + k) as usize, base, walking) == base + (k + 1) % cycle_length(walking),
        base <= frame_after((base + k) as usize, base, walking) < base + cycle_length(walking),
{
    lemma_tick_exact_period(period, elapsed, delta);
    lemma_step_keeps_position(base, base, k, walking);
}

} // verus!
