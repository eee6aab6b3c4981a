use diffdrive_rig::rig::{build_rig, Joint, JointKind, LinkTag, Motor, RigConfig};
use diffdrive_rig::teleop::{actuate, target_velocity, DriveKeys, MOTOR_DAMPING_MILLI};

const MAX_VEL: i64 = 40_000;

fn standard_joints() -> Vec<Joint> {
    build_rig(RigConfig::default())
        .expect("standard configuration must build")
        .joints
}

fn motor_of(joints: &[Joint], child: LinkTag) -> Motor {
    let j = joints.iter().find(|j| j.child == child).unwrap();
    match j.kind {
        JointKind::Revolute { motor, .. } => motor,
        JointKind::Fixed => panic!("expected a revolute joint"),
    }
}

fn keys(left_held: bool, right_held: bool) -> DriveKeys {
    DriveKeys { left_held, right_held }
}

#[test]
fn drive_left_held_commands_left_wheel_only() {
    let mut joints = standard_joints();
    actuate(&mut joints, keys(true, false), MAX_VEL);
    assert_eq!(motor_of(&joints, LinkTag::LeftWheel).target_vel_milli, 40_000);
    assert_eq!(motor_of(&joints, LinkTag::RightWheel).target_vel_milli, 0);
}

#[test]
fn no_key_held_commands_both_wheels_to_zero() {
    let mut joints = standard_joints();
    actuate(&mut joints, keys(false, false), MAX_VEL);
    assert_eq!(motor_of(&joints, LinkTag::LeftWheel).target_vel_milli, 0);
    assert_eq!(motor_of(&joints, LinkTag::RightWheel).target_vel_milli, 0);
}

#[test]
fn both_keys_held_commands_both_wheels_to_the_maximum() {
    let mut joints = standard_joints();
    actuate(&mut joints, keys(true, true), MAX_VEL);
    assert_eq!(motor_of(&joints, LinkTag::LeftWheel).target_vel_milli, 40_000);
    assert_eq!(motor_of(&joints, LinkTag::RightWheel).target_vel_milli, 40_000);
    // Equal targets drive the robot straight because the anchors mirror.
    let left = joints.iter().find(|j| j.child == LinkTag::LeftWheel).unwrap();
    let right = joints.iter().find(|j| j.child == LinkTag::RightWheel).unwrap();
    assert_eq!(left.anchor_milli.y, -right.anchor_milli.y);
    assert_eq!(left.anchor_milli.x, right.anchor_milli.x);
}

#[test]
fn every_key_state_yields_only_zero_or_max_targets() {
    for left in [false, true] {
        for right in [false, true] {
            let mut joints = standard_joints();
            actuate(&mut joints, keys(left, right), MAX_VEL);
            for child in [LinkTag::LeftWheel, LinkTag::RightWheel] {
                let v = motor_of(&joints, child).target_vel_milli;
                assert!(v == 0 || v == MAX_VEL);
            }
        }
    }
}

#[test]
fn holding_a_key_never_lowers_that_wheels_target() {
    assert!(target_velocity(false, MAX_VEL) <= target_velocity(true, MAX_VEL));
    assert_eq!(target_velocity(false, MAX_VEL), 0);
    assert_eq!(target_velocity(true, MAX_VEL), MAX_VEL);
}

#[test]
fn toggling_one_signal_never_changes_the_other_wheel() {
    for left in [false, true] {
        let mut with_right = standard_joints();
        actuate(&mut with_right, keys(left, true), MAX_VEL);
        let mut without_right = standard_joints();
        actuate(&mut without_right, keys(left, false), MAX_VEL);
        assert_eq!(
            motor_of(&with_right, LinkTag::LeftWheel),
            motor_of(&without_right, LinkTag::LeftWheel)
        );
    }
    for right in [false, true] {
        let mut with_left = standard_joints();
        actuate(&mut with_left, keys(true, right), MAX_VEL);
        let mut without_left = standard_joints();
        actuate(&mut without_left, keys(false, right), MAX_VEL);
        assert_eq!(
            motor_of(&with_left, LinkTag::RightWheel),
            motor_of(&without_left, LinkTag::RightWheel)
        );
    }
}

#[test]
fn actuating_twice_with_unchanged_keys_is_idempotent() {
    for left in [false, true] {
        for right in [false, true] {
            let mut joints = standard_joints();
            actuate(&mut joints, keys(left, right), MAX_VEL);
            let after_first = joints.clone();
            actuate(&mut joints, keys(left, right), MAX_VEL);
            assert_eq!(joints, after_first);
        }
    }
}

#[test]
fn setpoints_persist_until_overwritten() {
    let mut joints = standard_joints();
    actuate(&mut joints, keys(true, true), MAX_VEL);
    assert_eq!(motor_of(&joints, LinkTag::LeftWheel).target_vel_milli, MAX_VEL);
    // The next tick's write is a total overwrite: last write wins.
    actuate(&mut joints, keys(false, true), MAX_VEL);
    assert_eq!(motor_of(&joints, LinkTag::LeftWheel).target_vel_milli, 0);
    assert_eq!(motor_of(&joints, LinkTag::RightWheel).target_vel_milli, MAX_VEL);
}

#[test]
fn unrecognized_tags_are_never_written() {
    // A revolute joint of a body tagged "base_link" must be skipped whatever
    // the key state, keeping its sentinel setpoint.
    let sentinel = Motor {
        model: diffdrive_rig::rig::MotorModel::ForceBased,
        target_pos_milli: 11,
        target_vel_milli: 22,
        stiffness_milli: 33,
        damping_milli: 44,
        max_force_milli: 55,
    };
    let odd_joint = Joint {
        parent: LinkTag::CasterLink,
        child: LinkTag::BaseLink,
        anchor_milli: diffdrive_rig::geom::Vec3Milli { x: 1, y: 2, z: 3 },
        kind: JointKind::Revolute {
            axis: diffdrive_rig::rig::Axis::X,
            motor: sentinel,
        },
    };
    for left in [false, true] {
        for right in [false, true] {
            let mut joints = standard_joints();
            joints.push(odd_joint);
            actuate(&mut joints, keys(left, right), MAX_VEL);
            assert_eq!(*joints.last().unwrap(), odd_joint);
            // The caster's fixed joint is never written either.
            let caster = joints.iter().find(|j| j.child == LinkTag::CasterLink).unwrap();
            assert_eq!(caster.kind, JointKind::Fixed);
        }
    }
}

#[test]
fn an_empty_joint_set_is_not_a_fault() {
    let mut joints: Vec<Joint> = Vec::new();
    actuate(&mut joints, keys(true, true), MAX_VEL);
    assert!(joints.is_empty());
}

#[test]
fn fresh_setpoints_use_pure_velocity_control() {
    let mut joints = standard_joints();
    actuate(&mut joints, keys(true, false), MAX_VEL);
    let m = motor_of(&joints, LinkTag::LeftWheel);
    assert_eq!(m.target_pos_milli, 0);
    assert_eq!(m.stiffness_milli, 0);
    assert_eq!(m.damping_milli, MOTOR_DAMPING_MILLI);
    assert_eq!(m.max_force_milli, 40_000);
}
