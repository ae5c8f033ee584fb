use sprite_walker::facing::FacingDirection;
use sprite_walker::input::{resolve_input, InputVector, KeyState};
use sprite_walker::motion::{plan_motion, MotionCommand, MotionPolicy};

#[test]
fn kinematic_accelerates_while_walking() {
    let keys = KeyState { left: false, right: true, up: false, down: false };
    let input = resolve_input(&keys, FacingDirection::DOWN);
    assert_eq!(
        plan_motion(MotionPolicy::Kinematic, &input),
        MotionCommand::Accelerate { direction: InputVector { x: 1, y: 0 } }
    );
}

#[test]
fn kinematic_brakes_at_rest() {
    let keys = KeyState { left: false, right: false, up: false, down: false };
    let input = resolve_input(&keys, FacingDirection::DOWN);
    assert_eq!(plan_motion(MotionPolicy::Kinematic, &input), MotionCommand::Brake);
}

#[test]
fn impulse_pushes_every_tick() {
    let rest = KeyState { left: false, right: false, up: false, down: false };
    let input = resolve_input(&rest, FacingDirection::DOWN);
    assert_eq!(
        plan_motion(MotionPolicy::Impulse, &input),
        MotionCommand::Push { direction: InputVector { x: 0, y: 0 } }
    );
    let diagonal = KeyState { left: true, right: false, up: false, down: true };
    let input = resolve_input(&diagonal, FacingDirection::DOWN);
    assert_eq!(
        plan_motion(MotionPolicy::Impulse, &input),
        MotionCommand::Push { direction: InputVector { x: -1, y: -1 } }
    );
}
