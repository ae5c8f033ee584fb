use vstd::prelude::*;
use crate::facing::FacingDirection;
use crate::input::{InputVector, KeyState, ResolvedInput};

verus! {

/// How resolved input becomes motion. One policy is chosen when the player is
/// set up.
#[derive(Clone, Copy, Debug, PartialEq, Eq, Structural)]
pub enum MotionPolicy {
    /// The velocity is smoothed toward a target and applied as a displacement.
    Kinematic,
    /// An impulse is handed to a dynamic body on every tick.
    Impulse,
}

/// What the engine side is asked to do with the body for one tick.
#[derive(Clone, Copy, Debug, PartialEq, Eq, Structural)]
pub enum MotionCommand {
    /// Interpolate the velocity toward the unit vector of `direction` times
    /// the maximum speed, at the rate acceleration times elapsed time.
    Accelerate { direction: InputVector },
    /// Interpolate the velocity toward zero, at the rate friction times
    /// elapsed time.
    Brake,
    /// Apply an impulse of the unit vector of `direction` times the speed
    /// constant; a zero direction gives a zero impulse.
    Push { direction: InputVector },
}

/// The command that a policy gives for a resolved input.
pub open spec fn spec_plan_motion(policy: MotionPolicy, input: ResolvedInput) -> MotionCommand {
    match policy {
        MotionPolicy::Kinematic => if input.is_walking {
            MotionCommand::Accelerate { direction: input.direction }
        } else {
            MotionCommand::Brake
        },
        MotionPolicy::Impulse => MotionCommand::Push { direction: input.direction },
    }
}

/// Chooses the motion command for one tick.
pub fn plan_motion(policy: MotionPolicy, input: &ResolvedInput) -> (cmd: MotionCommand)
    ensures
        cmd == spec_plan_motion(policy, *input),
{
    match policy {
        MotionPolicy::Kinematic => {
            if input.is_walking {
                MotionCommand::Accelerate { direction: input.direction }
            } else {
                MotionCommand::Brake
            }
        },
        MotionPolicy::Impulse => MotionCommand::Push { direction: input.direction },
    }
}

/// Under the kinematic policy, a tick with no key held asks to brake toward
/// rest, and a tick with a key held asks to accelerate along the resolved
/// direction, which is then not zero.
pub proof fn lemma_kinematic_command(keys: KeyState, before: FacingDirection)
    ensures
        keys.none_pressed() ==> spec_plan_motion(MotionPolicy::Kinematic, keys.resolved(before))
            == MotionCommand::Brake,
        !keys.none_pressed() ==> spec_plan_motion(MotionPolicy::Kinematic, keys.resolved(before))
            == (MotionCommand::Accelerate { direction: keys.resolved(before).direction })
            && !keys.resolved(before).direction.is_zero(),
{
}

/// Under the impulse policy the push follows the resolved direction on every
/// tick, so it is zero exactly when no key is held.
pub proof fn lemma_impulse_command(keys: KeyState, before: FacingDirection)
    ensures
        spec_plan_motion(MotionPolicy::Impulse, keys.resolved(before)) == (MotionCommand::Push {
            direction: keys.resolved(before).direction,
        }),
        keys.resolved(before).direction.is_zero() <==> keys.none_pressed(),
{
}

} // verus!
