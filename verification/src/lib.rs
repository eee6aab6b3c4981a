//! A differential-drive robot rig: construction of the robot's rigid-body
//! graph (chassis, two driven wheels, one caster) and translation of
//! drive-key state into joint motor setpoints.
//!
//! All geometry and motor quantities are carried as fixed-point integers in
//! thousandths of their SI unit, so every value and every invariant is exact.
//! A host engine is expected to convert the produced rig description and
//! motor setpoints into its own floating-point world.

pub mod create_world;
pub mod geom;
pub mod mesh;
pub mod rig;
pub mod teleop;
pub mod texture;
