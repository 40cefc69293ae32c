//! What the device families have in common.

pub mod id;
