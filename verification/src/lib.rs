//! Fixed-point kinematics for a small 2D platformer.

pub mod body;
pub mod boundary;
pub mod bounds;
pub mod fixed;
pub mod gravity;
pub mod input;
pub mod laws;
pub mod motion;
pub mod tick;
pub mod tuning;
