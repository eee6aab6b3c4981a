//! Teleop actuation: translating drive-key state into wheel motor setpoints.
//!
//! Every simulation tick, after input sampling, the actuator walks the live
//! joints and overwrites the motor target velocity of each driven wheel's
//! revolute joint: the configured maximum while the wheel's drive key is
//! held, zero otherwise.  Joints of bodies with any other tag are skipped
//! entirely.  The actuator keeps no state of its own; a setpoint persists
//! until the next overwrite, with no implicit decay.

use vstd::prelude::*;
use crate::rig::{Joint, JointKind, LinkTag, Motor};

verus! {

/// The damping (responsiveness) factor written with every velocity setpoint,
/// in thousandths.
pub const MOTOR_DAMPING_MILLI: i64 = 10_000;

/// The wheel angular velocity commanded while a drive key is held, in
/// thousandths of a radian per second.
pub const MAX_WHEEL_VELOCITY_MILLI: i64 = 4_000;

/// Which drive keys are currently held: one boolean signal per driven wheel.
#[derive(Clone, Copy, Debug, PartialEq, Eq, Structural)]
pub struct DriveKeys {
    pub left_held: bool,
    pub right_held: bool,
}

/// The velocity commanded for one wheel: the maximum while its key is held,
/// zero otherwise.
pub open spec fn spec_target_velocity(held: bool, max_vel_milli: i64) -> i64 {
    if held {
        max_vel_milli
    } else {
        0i64
    }
}

pub fn target_velocity(held: bool, max_vel_milli: i64) -> (r: i64)
    ensures
        r == spec_target_velocity(held, max_vel_milli),
{
    if held {
        max_vel_milli
    } else {
        0
    }
}

/// A wheel motor carrying a fresh velocity setpoint: pure velocity control
/// (zero position target, zero stiffness) at the fixed damping factor.  The
/// motor's model and force limit, set at build time, are untouched.
pub open spec fn motor_with_velocity(m: Motor, vel_milli: i64) -> Motor {
    Motor {
        target_pos_milli: 0,
        target_vel_milli: vel_milli,
        stiffness_milli: 0,
        damping_milli: MOTOR_DAMPING_MILLI,
        ..m
    }
}

/// One joint after an actuator pass: a revolute joint of a driven wheel gets
/// that wheel's commanded velocity; every other joint is left untouched.
pub open spec fn actuated_joint(j: Joint, keys: DriveKeys, max_vel_milli: i64) -> Joint {
    match j.kind {
        JointKind::Revolute { axis, motor } => if j.child == LinkTag::LeftWheel {
            Joint {
                kind: JointKind::Revolute {
                    axis,
                    motor: motor_with_velocity(
                        motor,
                        spec_target_velocity(keys.left_held, max_vel_milli),
                    ),
                },
                ..j
            }
        } else if j.child == LinkTag::RightWheel {
            Joint {
                kind: JointKind::Revolute {
                    axis,
                    motor: motor_with_velocity(
                        motor,
                        spec_target_velocity(keys.right_held, max_vel_milli),
                    ),
                },
                ..j
            }
        } else {
            j
        },
        JointKind::Fixed => j,
    }
}

/// Law: for every key state the commanded velocity is exactly zero or the
/// maximum, and it is monotone in the key signal: holding a wheel's drive
/// key never lowers that wheel's commanded velocity, all else equal.
pub proof fn lemma_target_velocity_range_and_monotone(held: bool, max_vel_milli: i64)
    requires
        0 <= max_vel_milli,
    ensures
        spec_target_velocity(held, max_vel_milli) == 0 || spec_target_velocity(
            held,
            max_vel_milli,
        ) == max_vel_milli,
        spec_target_velocity(false, max_vel_milli) <= spec_target_velocity(true, max_vel_milli),
{
}

/// Law: the two wheels' target assignment is independent.  Toggling the
/// right-drive signal never changes what the actuator does to a left-wheel
/// joint, and vice versa.
pub proof fn lemma_left_right_independent(j: Joint, keys_a: DriveKeys, keys_b: DriveKeys, max_vel_milli: i64)
    ensures
        j.child == LinkTag::LeftWheel && keys_a.left_held == keys_b.left_held
            ==> actuated_joint(j, keys_a, max_vel_milli) == actuated_joint(
            j,
            keys_b,
            max_vel_milli,
        ),
        j.child == LinkTag::RightWheel && keys_a.right_held == keys_b.right_held
            ==> actuated_joint(j, keys_a, max_vel_milli) == actuated_joint(
            j,
            keys_b,
            max_vel_milli,
        ),
{
}

/// Law: actuation is idempotent.  A second pass with unchanged key state
/// rewrites every setpoint with the value it already has, so the joints are
/// identical after the second pass and after the first.
pub proof fn lemma_actuation_idempotent(j: Joint, keys: DriveKeys, max_vel_milli: i64)
    ensures
        actuated_joint(actuated_joint(j, keys, max_vel_milli), keys, max_vel_milli)
            == actuated_joint(j, keys, max_vel_milli),
{
}

/// Law: a joint whose child carries any tag other than the two driven
/// wheels — the chassis's own tag among them — is never written, whatever
/// the key state.
pub proof fn lemma_unrecognized_tag_untouched(j: Joint, keys: DriveKeys, max_vel_milli: i64)
    ensures
        j.child != LinkTag::LeftWheel && j.child != LinkTag::RightWheel ==> actuated_joint(
            j,
            keys,
            max_vel_milli,
        ) == j,
{
}

/// Law: across a freshly built rig, actuation routes each key signal to its
/// own wheel's joint and nowhere else.  The caster's fixed joint is never
/// written; each wheel joint's motor carries exactly its key's commanded
/// velocity; and when both signals agree the two wheels are commanded the
/// same velocity, which together with the anchors' mirror symmetry is what
/// drives the robot straight.
pub proof fn lemma_built_rig_actuation(
    rig: crate::rig::Rig,
    cfg: crate::rig::RigConfig,
    keys: DriveKeys,
    max_vel_milli: i64,
)
    requires
        crate::rig::is_built_from(rig, cfg),
    ensures
        actuated_joint(rig.joints@[0], keys, max_vel_milli) == rig.joints@[0],
        actuated_joint(rig.joints@[1], keys, max_vel_milli) == (Joint {
            kind: JointKind::Revolute {
                axis: crate::rig::Axis::Y,
                motor: motor_with_velocity(
                    crate::rig::initial_wheel_motor(cfg),
                    spec_target_velocity(keys.left_held, max_vel_milli),
                ),
            },
            ..crate::rig::left_wheel_joint(cfg)
        }),
        actuated_joint(rig.joints@[2], keys, max_vel_milli) == (Joint {
            kind: JointKind::Revolute {
                axis: crate::rig::Axis::Y,
                motor: motor_with_velocity(
                    crate::rig::initial_wheel_motor(cfg),
                    spec_target_velocity(keys.right_held, max_vel_milli),
                ),
            },
            ..crate::rig::right_wheel_joint(cfg)
        }),
        keys.left_held == keys.right_held ==> spec_target_velocity(keys.left_held, max_vel_milli)
            == spec_target_velocity(keys.right_held, max_vel_milli),
{
}

/// Writes this tick's motor setpoints: for each revolute joint whose child
/// is a driven wheel, the motor target velocity becomes the wheel's
/// commanded velocity; joints with any other child tag, and fixed joints,
/// are not written at all.  An empty collection (rig not built yet, or
/// bodies despawned) is never a fault.
pub fn actuate(joints: &mut Vec<Joint>, keys: DriveKeys, max_vel_milli: i64)
    ensures
        final(joints)@.len() == old(joints)@.len(),
        forall|i: int|
            0 <= i < old(joints)@.len() ==> final(joints)@[i] == actuated_joint(
                #[trigger] old(joints)@[i],
                keys,
                max_vel_milli,
            ),
{
    let left_vel = target_velocity(keys.left_held, max_vel_milli);
    let right_vel = target_velocity(keys.right_held, max_vel_milli);
    let n = joints.len();
    let mut i: usize = 0;
    while i < n
        invariant
            0 <= i <= n,
            n == joints@.len(),
            joints@.len() == old(joints)@.len(),
            left_vel == spec_target_velocity(keys.left_held, max_vel_milli),
            right_vel == spec_target_velocity(keys.right_held, max_vel_milli),
            forall|k: int|
                0 <= k < i ==> joints@[k] == actuated_joint(
                    #[trigger] old(joints)@[k],
                    keys,
                    max_vel_milli,
                ),
            forall|k: int| i <= k < n ==> joints@[k] == #[trigger] old(joints)@[k],
        decreases n - i,
    {
        let j = joints[i];
        if let JointKind::Revolute { axis, motor } = j.kind {
            let command: Option<i64> = match j.child {
                LinkTag::LeftWheel => Some(left_vel),
                LinkTag::RightWheel => Some(right_vel),
                _ => None,
            };
            if let Some(vel) = command {
                joints[i] = Joint {
                    kind: JointKind::Revolute {
                        axis,
                        motor: Motor {
                            target_pos_milli: 0,
                            target_vel_milli: vel,
                            stiffness_milli: 0,
                            damping_milli: MOTOR_DAMPING_MILLI,
                            ..motor
                        },
                    },
                    ..j
                };
            }
        }
        i = i + 1;
    }
}

} // verus!
