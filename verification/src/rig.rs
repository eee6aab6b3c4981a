//! Rig construction: the robot's rigid-body graph.
//!
//! The rig is a one-level tree rooted at the chassis: two driven wheels hang
//! from it by revolute joints with velocity motors, and a passive caster by a
//! fixed joint.  `build_rig` produces the whole graph in one step, fully
//! tagged and ready for actuation; a host engine turns the description into
//! live bodies and constraints.

use vstd::prelude::*;
use crate::geom::Vec3Milli;
use crate::mesh::TriMesh;

verus! {

/// Upper bound on every configured length, radius and position component,
/// in thousandths of a metre.  Keeping all inputs inside this bound makes
/// every derived coordinate fit comfortably in an `i64`.
pub const MAX_DIMENSION_MILLI: i64 = 1_000_000_000;

/// The closed set of link roles in the rig.  The actuator routes commands by
/// tag, never by creation order.
#[derive(Clone, Copy, Debug, PartialEq, Eq, Structural)]
pub enum LinkTag {
    BaseLink,
    LeftWheel,
    RightWheel,
    CasterLink,
}

impl LinkTag {
    /// The stable string form of the tag, as attached to bodies in a host
    /// world and reported back by it.
    pub open spec fn spec_name(self) -> Seq<char> {
        match self {
            LinkTag::BaseLink => "base_link"@,
            LinkTag::LeftWheel => "left_wheel"@,
            LinkTag::RightWheel => "right_wheel"@,
            LinkTag::CasterLink => "caster_link"@,
        }
    }

    pub fn name(self) -> (r: &'static str)
        ensures
            r@ == self.spec_name(),
    {
        match self {
            LinkTag::BaseLink => "base_link",
            LinkTag::LeftWheel => "left_wheel",
            LinkTag::RightWheel => "right_wheel",
            LinkTag::CasterLink => "caster_link",
        }
    }

    /// The two wheel links are the only driven bodies.
    pub open spec fn is_driven_wheel(self) -> bool {
        self == LinkTag::LeftWheel || self == LinkTag::RightWheel
    }
}

/// How two touching bodies' friction coefficients are combined.
#[derive(Clone, Copy, Debug, PartialEq, Eq, Structural)]
pub enum CombineRule {
    Average,
    Min,
    Multiply,
    Max,
}

/// Surface friction of a body, in thousandths of the dimensionless
/// coefficient.
#[derive(Clone, Copy, Debug, PartialEq, Eq, Structural)]
pub struct Friction {
    pub coefficient_milli: i64,
    pub combine_rule: CombineRule,
}

/// A collider shape: box, cylinder, sphere, or mesh-derived.
#[derive(Debug)]
pub enum ColliderShape {
    Cuboid { half_x_milli: i64, half_y_milli: i64, half_z_milli: i64 },
    Cylinder { half_height_milli: i64, radius_milli: i64 },
    Ball { radius_milli: i64 },
    TriMesh(TriMesh),
}

/// How a joint motor turns the gap to its target into a corrective effort.
#[derive(Clone, Copy, Debug, PartialEq, Eq, Structural)]
pub enum MotorModel {
    AccelerationBased,
    ForceBased,
}

/// The motor embedded in a revolute joint.  Velocities are in thousandths of
/// a radian per second, forces in thousandths of a newton-metre.
#[derive(Clone, Copy, Debug, PartialEq, Eq, Structural)]
pub struct Motor {
    pub model: MotorModel,
    pub target_pos_milli: i64,
    pub target_vel_milli: i64,
    pub stiffness_milli: i64,
    pub damping_milli: i64,
    pub max_force_milli: i64,
}

/// A local coordinate axis of the parent body.
#[derive(Clone, Copy, Debug, PartialEq, Eq, Structural)]
pub enum Axis {
    X,
    Y,
    Z,
}

/// The kind of constraint a joint imposes.
#[derive(Clone, Copy, Debug, PartialEq, Eq, Structural)]
pub enum JointKind {
    /// Zero relative degrees of freedom.
    Fixed,
    /// One rotational degree of freedom about `axis`, driven by `motor`.
    Revolute { axis: Axis, motor: Motor },
}

/// A constraint relating a child body to a parent body, anchored at a point
/// in the parent's local frame.
#[derive(Clone, Copy, Debug, PartialEq, Eq, Structural)]
pub struct Joint {
    pub parent: LinkTag,
    pub child: LinkTag,
    pub anchor_milli: Vec3Milli,
    pub kind: JointKind,
}

/// A dynamic rigid body of the rig, with its tag, collider, mass, friction
/// and initial placement.  `sleep_disabled` must hold for every driven body,
/// or the integrator may put it to sleep and motor commands silently stop
/// applying.
#[derive(Debug)]
pub struct Body {
    pub tag: LinkTag,
    pub shape: ColliderShape,
    pub mass_milli: i64,
    pub friction: Option<Friction>,
    pub sleep_disabled: bool,
    pub position_milli: Vec3Milli,
}

/// The assembled rig: bodies and the joints that connect them.
#[derive(Debug)]
pub struct Rig {
    pub bodies: Vec<Body>,
    pub joints: Vec<Joint>,
}

impl Rig {
    /// Index of the first body carrying `tag`, if any.  Role-based lookup:
    /// collaborators resolve bodies by tag, never by creation order.
    pub fn find_body(&self, tag: LinkTag) -> (r: Option<usize>)
        ensures
            match r {
                Some(i) => {
                    &&& i < self.bodies@.len()
                    &&& self.bodies@[i as int].tag == tag
                    &&& forall|k: int| 0 <= k < i ==> (#[trigger] self.bodies@[k]).tag != tag
                },
                None => forall|k: int|
                    0 <= k < self.bodies@.len() ==> (#[trigger] self.bodies@[k]).tag != tag,
            },
    {
        let mut i: usize = 0;
        while i < self.bodies.len()
            invariant
                0 <= i <= self.bodies@.len(),
                forall|k: int| 0 <= k < i ==> (#[trigger] self.bodies@[k]).tag != tag,
            decreases self.bodies@.len() - i,
        {
            if self.bodies[i].tag == tag {
                return Some(i);
            }
            i = i + 1;
        }
        None
    }

    /// Index of the first joint whose child carries `tag`, if any.
    pub fn find_joint(&self, tag: LinkTag) -> (r: Option<usize>)
        ensures
            match r {
                Some(i) => {
                    &&& i < self.joints@.len()
                    &&& self.joints@[i as int].child == tag
                    &&& forall|k: int| 0 <= k < i ==> (#[trigger] self.joints@[k]).child != tag
                },
                None => forall|k: int|
                    0 <= k < self.joints@.len() ==> (#[trigger] self.joints@[k]).child != tag,
            },
    {
        let mut i: usize = 0;
        while i < self.joints.len()
            invariant
                0 <= i <= self.joints@.len(),
                forall|k: int| 0 <= k < i ==> (#[trigger] self.joints@[k]).child != tag,
            decreases self.joints@.len() - i,
        {
            if self.joints[i].child == tag {
                return Some(i);
            }
            i = i + 1;
        }
        None
    }
}

/// Why rig construction can fail.
#[derive(Clone, Copy, Debug, PartialEq, Eq, Structural)]
pub enum RigError {
    /// The chassis collider mesh is empty or degenerate; a robot without a
    /// chassis collider is not a usable state, so construction aborts.
    DegenerateChassisMesh,
}

impl RigError {
    pub open spec fn spec_message(self) -> Seq<char> {
        "chassis collider mesh is empty or degenerate"@
    }

    pub fn message(self) -> (r: &'static str)
        ensures
            r@ == self.spec_message(),
    {
        "chassis collider mesh is empty or degenerate"
    }
}

/// Static configuration of the rig: chassis extents, wheel and caster
/// geometry, masses, frictions, the wheel motors' force limit, the chassis
/// spawn position, and the mesh the chassis collider is derived from.
#[derive(Debug)]
pub struct RigConfig {
    pub robot_length_milli: i64,
    pub robot_width_milli: i64,
    pub wheel_radius_milli: i64,
    pub wheel_width_milli: i64,
    pub caster_radius_milli: i64,
    pub chassis_mass_milli: i64,
    pub wheel_mass_milli: i64,
    pub caster_mass_milli: i64,
    pub wheel_friction: Friction,
    pub caster_friction: Friction,
    pub motor_max_force_milli: i64,
    pub chassis_position_milli: Vec3Milli,
    pub chassis_mesh: TriMesh,
}

impl RigConfig {
    /// The geometric and machine-limit conditions under which the rig's
    /// coordinates are well defined and free of overflow.
    pub open spec fn is_sane(self) -> bool {
        &&& 0 < self.robot_length_milli <= MAX_DIMENSION_MILLI
        &&& 0 < self.robot_width_milli <= MAX_DIMENSION_MILLI
        &&& 0 < self.wheel_radius_milli <= MAX_DIMENSION_MILLI
        &&& 0 < self.wheel_width_milli <= MAX_DIMENSION_MILLI
        &&& 0 < self.caster_radius_milli <= MAX_DIMENSION_MILLI
        &&& 0 < self.motor_max_force_milli
        &&& -MAX_DIMENSION_MILLI <= self.chassis_position_milli.x <= MAX_DIMENSION_MILLI
        &&& -MAX_DIMENSION_MILLI <= self.chassis_position_milli.y <= MAX_DIMENSION_MILLI
        &&& -MAX_DIMENSION_MILLI <= self.chassis_position_milli.z <= MAX_DIMENSION_MILLI
    }
}

impl Default for RigConfig {
    /// The stock rig: a half-metre chassis with 0.2 m wheels, a 0.1 m
    /// caster, grippy wheels, a frictionless caster, and a chassis collider
    /// derived from a 0.2 m cube mesh, spawned 0.3 m above the ground.
    fn default() -> (c: RigConfig)
        ensures
            c.robot_length_milli == 500,
            c.robot_width_milli == 500,
            c.wheel_radius_milli == 200,
            c.wheel_width_milli == 50,
            c.caster_radius_milli == 100,
            c.chassis_mass_milli == 10_000,
            c.wheel_mass_milli == 1_000,
            c.caster_mass_milli == 10_000,
            c.wheel_friction == (Friction {
                coefficient_milli: 800,
                combine_rule: CombineRule::Max,
            }),
            c.caster_friction == (Friction {
                coefficient_milli: 0,
                combine_rule: CombineRule::Min,
            }),
            c.motor_max_force_milli == 40_000,
            c.chassis_position_milli == (Vec3Milli { x: 0, y: 0, z: 300 }),
            c.chassis_mesh.vertices@ == crate::mesh::cuboid_vertices(100),
            c.chassis_mesh.triangles@ == crate::mesh::cuboid_triangles(),
            c.chassis_mesh.is_well_formed(),
            c.is_sane(),
    {
        RigConfig {
            robot_length_milli: 500,
            robot_width_milli: 500,
            wheel_radius_milli: 200,
            wheel_width_milli: 50,
            caster_radius_milli: 100,
            chassis_mass_milli: 10_000,
            wheel_mass_milli: 1_000,
            caster_mass_milli: 10_000,
            wheel_friction: Friction { coefficient_milli: 800, combine_rule: CombineRule::Max },
            caster_friction: Friction { coefficient_milli: 0, combine_rule: CombineRule::Min },
            motor_max_force_milli: 40_000,
            chassis_position_milli: Vec3Milli { x: 0, y: 0, z: 300 },
            chassis_mesh: crate::mesh::cuboid_mesh(100),
        }
    }
}

/// Left wheel anchor, on the chassis's left side, half the track width out
/// from the centreline.
pub open spec fn left_wheel_anchor(cfg: RigConfig) -> Vec3Milli {
    Vec3Milli { x: 0, y: (cfg.robot_width_milli as int / 2) as i64, z: 0 }
}

/// Right wheel anchor: the mirror image of the left one.
pub open spec fn right_wheel_anchor(cfg: RigConfig) -> Vec3Milli {
    Vec3Milli { x: 0, y: (0 - cfg.robot_width_milli as int / 2) as i64, z: 0 }
}

/// Caster anchor: behind the chassis, lowered so the caster's bottom face is
/// flush with the wheels' contact plane.
pub open spec fn caster_anchor(cfg: RigConfig) -> Vec3Milli {
    Vec3Milli {
        x: (0 - cfg.robot_length_milli as int) as i64,
        y: 0,
        z: (cfg.caster_radius_milli - cfg.wheel_radius_milli) as i64,
    }
}

/// Componentwise sum, exact under `RigConfig::is_sane` bounds.
pub open spec fn vadd(a: Vec3Milli, b: Vec3Milli) -> Vec3Milli {
    Vec3Milli { x: (a.x + b.x) as i64, y: (a.y + b.y) as i64, z: (a.z + b.z) as i64 }
}

/// A freshly built wheel motor: force-based, zero targets, positive force
/// limit, no implicit damping.
pub open spec fn initial_wheel_motor(cfg: RigConfig) -> Motor {
    Motor {
        model: MotorModel::ForceBased,
        target_pos_milli: 0,
        target_vel_milli: 0,
        stiffness_milli: 0,
        damping_milli: 0,
        max_force_milli: cfg.motor_max_force_milli,
    }
}

pub open spec fn caster_joint(cfg: RigConfig) -> Joint {
    Joint {
        parent: LinkTag::BaseLink,
        child: LinkTag::CasterLink,
        anchor_milli: caster_anchor(cfg),
        kind: JointKind::Fixed,
    }
}

pub open spec fn left_wheel_joint(cfg: RigConfig) -> Joint {
    Joint {
        parent: LinkTag::BaseLink,
        child: LinkTag::LeftWheel,
        anchor_milli: left_wheel_anchor(cfg),
        kind: JointKind::Revolute { axis: Axis::Y, motor: initial_wheel_motor(cfg) },
    }
}

pub open spec fn right_wheel_joint(cfg: RigConfig) -> Joint {
    Joint {
        parent: LinkTag::BaseLink,
        child: LinkTag::RightWheel,
        anchor_milli: right_wheel_anchor(cfg),
        kind: JointKind::Revolute { axis: Axis::Y, motor: initial_wheel_motor(cfg) },
    }
}

pub open spec fn chassis_body(cfg: RigConfig) -> Body {
    Body {
        tag: LinkTag::BaseLink,
        shape: ColliderShape::TriMesh(cfg.chassis_mesh),
        mass_milli: cfg.chassis_mass_milli,
        friction: None,
        sleep_disabled: false,
        position_milli: cfg.chassis_position_milli,
    }
}

pub open spec fn caster_body(cfg: RigConfig) -> Body {
    Body {
        tag: LinkTag::CasterLink,
        shape: ColliderShape::Ball { radius_milli: cfg.caster_radius_milli },
        mass_milli: cfg.caster_mass_milli,
        friction: Some(cfg.caster_friction),
        sleep_disabled: false,
        position_milli: vadd(cfg.chassis_position_milli, caster_anchor(cfg)),
    }
}

pub open spec fn wheel_body(cfg: RigConfig, tag: LinkTag, anchor: Vec3Milli) -> Body {
    Body {
        tag: tag,
        shape: ColliderShape::Cylinder {
            half_height_milli: cfg.wheel_width_milli,
            radius_milli: cfg.wheel_radius_milli,
        },
        mass_milli: cfg.wheel_mass_milli,
        friction: Some(cfg.wheel_friction),
        sleep_disabled: true,
        position_milli: vadd(cfg.chassis_position_milli, anchor),
    }
}

/// Everything `build_rig` promises of a successfully built rig: four bodies
/// and three joints, each pinned down exactly.
pub open spec fn is_built_from(rig: Rig, cfg: RigConfig) -> bool {
    &&& rig.bodies@.len() == 4
    &&& rig.bodies@[0] == chassis_body(cfg)
    &&& rig.bodies@[1] == caster_body(cfg)
    &&& rig.bodies@[2] == wheel_body(cfg, LinkTag::LeftWheel, left_wheel_anchor(cfg))
    &&& rig.bodies@[3] == wheel_body(cfg, LinkTag::RightWheel, right_wheel_anchor(cfg))
    &&& rig.joints@.len() == 3
    &&& rig.joints@[0] == caster_joint(cfg)
    &&& rig.joints@[1] == left_wheel_joint(cfg)
    &&& rig.joints@[2] == right_wheel_joint(cfg)
}

/// How many elements of `s` satisfy `p`.
pub open spec fn count_matching<T>(s: Seq<T>, p: spec_fn(T) -> bool) -> int
    decreases s.len(),
{
    if s.len() == 0 {
        0
    } else {
        count_matching(s.drop_last(), p) + if p(s.last()) {
            1int
        } else {
            0int
        }
    }
}

proof fn lemma_count_matching_push<T>(s: Seq<T>, p: spec_fn(T) -> bool, x: T)
    ensures
        count_matching(s.push(x), p) == count_matching(s, p) + if p(x) {
            1int
        } else {
            0int
        },
{
    assert(s.push(x).drop_last() =~= s);
    assert(s.push(x).last() == x);
}

pub open spec fn count_bodies_tagged(bodies: Seq<Body>, tag: LinkTag) -> int {
    count_matching(bodies, |b: Body| b.tag == tag)
}

pub open spec fn is_revolute(j: Joint) -> bool {
    j.kind matches JointKind::Revolute { .. }
}

pub open spec fn is_fixed(j: Joint) -> bool {
    j.kind matches JointKind::Fixed
}

pub open spec fn count_revolute(joints: Seq<Joint>) -> int {
    count_matching(joints, |j: Joint| is_revolute(j))
}

pub open spec fn count_fixed(joints: Seq<Joint>) -> int {
    count_matching(joints, |j: Joint| is_fixed(j))
}

proof fn lemma_count_four<T>(a: T, b: T, c: T, d: T, p: spec_fn(T) -> bool)
    ensures
        count_matching(seq![a, b, c, d], p) == (if p(a) {
            1int
        } else {
            0int
        }) + (if p(b) {
            1int
        } else {
            0int
        }) + (if p(c) {
            1int
        } else {
            0int
        }) + (if p(d) {
            1int
        } else {
            0int
        }),
{
    let e = Seq::<T>::empty();
    lemma_count_matching_push(e, p, a);
    lemma_count_matching_push(e.push(a), p, b);
    lemma_count_matching_push(e.push(a).push(b), p, c);
    lemma_count_matching_push(e.push(a).push(b).push(c), p, d);
    assert(seq![a, b, c, d] =~= e.push(a).push(b).push(c).push(d));
}

proof fn lemma_count_three<T>(a: T, b: T, c: T, p: spec_fn(T) -> bool)
    ensures
        count_matching(seq![a, b, c], p) == (if p(a) {
            1int
        } else {
            0int
        }) + (if p(b) {
            1int
        } else {
            0int
        }) + (if p(c) {
            1int
        } else {
            0int
        }),
{
    let e = Seq::<T>::empty();
    lemma_count_matching_push(e, p, a);
    lemma_count_matching_push(e.push(a), p, b);
    lemma_count_matching_push(e.push(a).push(b), p, c);
    assert(seq![a, b, c] =~= e.push(a).push(b).push(c));
}

/// Law: a built rig carries exactly one body per declared tag.
pub proof fn lemma_one_body_per_tag(rig: Rig, cfg: RigConfig)
    requires
        is_built_from(rig, cfg),
    ensures
        forall|t: LinkTag| #[trigger] count_bodies_tagged(rig.bodies@, t) == 1,
{
    assert forall|t: LinkTag| #[trigger] count_bodies_tagged(rig.bodies@, t) == 1 by {
        let s = rig.bodies@;
        assert(s =~= seq![s[0], s[1], s[2], s[3]]);
        lemma_count_four(s[0], s[1], s[2], s[3], |b: Body| b.tag == t);
    }
}

/// Law: a built rig carries exactly as many revolute joints as driven wheels
/// (two), and exactly one fixed joint (the caster's).
pub proof fn lemma_joint_counts(rig: Rig, cfg: RigConfig)
    requires
        is_built_from(rig, cfg),
    ensures
        count_revolute(rig.joints@) == 2,
        count_fixed(rig.joints@) == 1,
{
    let s = rig.joints@;
    assert(s =~= seq![s[0], s[1], s[2]]);
    lemma_count_three(s[0], s[1], s[2], |j: Joint| is_revolute(j));
    lemma_count_three(s[0], s[1], s[2], |j: Joint| is_fixed(j));
}

/// Law: wheel anchors are mirror images about the chassis's longitudinal
/// centreline, so equal-and-opposite wheel velocities turn the robot in
/// place.  Stated of every pair of joints that drive the two wheels.
pub proof fn lemma_wheel_anchor_mirror(rig: Rig, cfg: RigConfig)
    requires
        is_built_from(rig, cfg),
        cfg.is_sane(),
    ensures
        forall|i: int, j: int|
            #![trigger rig.joints@[i], rig.joints@[j]]
            0 <= i < rig.joints@.len() && 0 <= j < rig.joints@.len()
                && rig.joints@[i].child == LinkTag::LeftWheel && rig.joints@[j].child
                == LinkTag::RightWheel ==> {
                &&& rig.joints@[i].anchor_milli.y == -rig.joints@[j].anchor_milli.y
                &&& rig.joints@[i].anchor_milli.x == rig.joints@[j].anchor_milli.x
                &&& rig.joints@[i].anchor_milli.z == rig.joints@[j].anchor_milli.z
            },
{
}

/// Law: every driven wheel body is created with sleeping disabled, and every
/// revolute joint's motor uses the force-based model with a positive force
/// limit, so velocity setpoints written later have a physical effect.
pub proof fn lemma_driven_bodies_actuatable(rig: Rig, cfg: RigConfig)
    requires
        is_built_from(rig, cfg),
        cfg.is_sane(),
    ensures
        forall|i: int|
            0 <= i < rig.bodies@.len() && (#[trigger] rig.bodies@[i]).tag.is_driven_wheel()
                ==> rig.bodies@[i].sleep_disabled,
        forall|i: int|
            0 <= i < rig.joints@.len() ==> ((#[trigger] rig.joints@[i]).kind matches
                JointKind::Revolute { motor, .. } ==> motor.model == MotorModel::ForceBased
                && motor.max_force_milli > 0),
{
}

/// Builds the rig in one atomic step: one chassis, two driven wheels on
/// revolute joints about the lateral axis, one caster on a fixed joint.
///
/// Fails exactly when the chassis collider mesh is empty or degenerate; on
/// success the produced graph is pinned down by `is_built_from`.
pub fn build_rig(cfg: RigConfig) -> (r: Result<Rig, RigError>)
    requires
        cfg.is_sane(),
    ensures
        r is Ok <==> cfg.chassis_mesh.is_well_formed(),
        r matches Ok(rig) ==> is_built_from(rig, cfg),
        r matches Err(e) ==> e == RigError::DegenerateChassisMesh,
{
    if !cfg.chassis_mesh.check_well_formed() {
        return Err(RigError::DegenerateChassisMesh);
    }
    let half_width: i64 = cfg.robot_width_milli / 2;
    let left_anchor = Vec3Milli { x: 0, y: half_width, z: 0 };
    let right_anchor = Vec3Milli { x: 0, y: 0 - half_width, z: 0 };
    let caster_off = Vec3Milli {
        x: 0 - cfg.robot_length_milli,
        y: 0,
        z: cfg.caster_radius_milli - cfg.wheel_radius_milli,
    };
    assert(left_anchor == left_wheel_anchor(cfg));
    assert(right_anchor == right_wheel_anchor(cfg));
    assert(caster_off == caster_anchor(cfg));

    let motor = Motor {
        model: MotorModel::ForceBased,
        target_pos_milli: 0,
        target_vel_milli: 0,
        stiffness_milli: 0,
        damping_milli: 0,
        max_force_milli: cfg.motor_max_force_milli,
    };

    let mut bodies: Vec<Body> = Vec::new();
    bodies.push(Body {
        tag: LinkTag::BaseLink,
        shape: ColliderShape::TriMesh(cfg.chassis_mesh),
        mass_milli: cfg.chassis_mass_milli,
        friction: None,
        sleep_disabled: false,
        position_milli: cfg.chassis_position_milli,
    });
    bodies.push(Body {
        tag: LinkTag::CasterLink,
        shape: ColliderShape::Ball { radius_milli: cfg.caster_radius_milli },
        mass_milli: cfg.caster_mass_milli,
        friction: Some(cfg.caster_friction),
        sleep_disabled: false,
        position_milli: cfg.chassis_position_milli.add(caster_off),
    });
    bodies.push(Body {
        tag: LinkTag::LeftWheel,
        shape: ColliderShape::Cylinder {
            half_height_milli: cfg.wheel_width_milli,
            radius_milli: cfg.wheel_radius_milli,
        },
        mass_milli: cfg.wheel_mass_milli,
        friction: Some(cfg.wheel_friction),
        sleep_disabled: true,
        position_milli: cfg.chassis_position_milli.add(left_anchor),
    });
    bodies.push(Body {
        tag: LinkTag::RightWheel,
        shape: ColliderShape::Cylinder {
            half_height_milli: cfg.wheel_width_milli,
            radius_milli: cfg.wheel_radius_milli,
        },
        mass_milli: cfg.wheel_mass_milli,
        friction: Some(cfg.wheel_friction),
        sleep_disabled: true,
        position_milli: cfg.chassis_position_milli.add(right_anchor),
    });

    let mut joints: Vec<Joint> = Vec::new();
    joints.push(Joint {
        parent: LinkTag::BaseLink,
        child: LinkTag::CasterLink,
        anchor_milli: caster_off,
        kind: JointKind::Fixed,
    });
    joints.push(Joint {
        parent: LinkTag::BaseLink,
        child: LinkTag::LeftWheel,
        anchor_milli: left_anchor,
        kind: JointKind::Revolute { axis: Axis::Y, motor },
    });
    joints.push(Joint {
        parent: LinkTag::BaseLink,
        child: LinkTag::RightWheel,
        anchor_milli: right_anchor,
        kind: JointKind::Revolute { axis: Axis::Y, motor },
    });

    let rig = Rig { bodies, joints };
    proof {
        assert(rig.bodies@[0] == chassis_body(cfg));
        assert(rig.bodies@[1] == caster_body(cfg));
        assert(rig.bodies@[2] == wheel_body(cfg, LinkTag::LeftWheel, left_wheel_anchor(cfg)));
        assert(rig.bodies@[3] == wheel_body(cfg, LinkTag::RightWheel, right_wheel_anchor(cfg)));
    }
    Ok(rig)
}

} // verus!
