//! Core of a free-fly camera and the per-frame rendering orchestration
//! around it.
//!
//! All camera state is kept in fixed-point micro-units: a value of
//! [`fixed::SCALE`] stands for 1.0 (one world unit, one radian, one second,
//! one pointer-delta unit). Angles are micro-radians, distances micro-units,
//! durations micro-seconds. The surrounding application converts between
//! these integers and whatever floating-point or GPU representation it
//! needs; everything the library itself computes is exact integer
//! arithmetic with stated contracts.

pub mod basis;
pub mod camera;
pub mod engine;
pub mod fixed;
pub mod matrix;
