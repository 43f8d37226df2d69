//! Core of an instanced 3D rendering surface: fixed-point camera navigation,
//! grid instance generation with packed per-instance transforms, and the
//! surface/frame lifecycle state machines that drive a per-frame render loop.

pub mod fixed;
pub mod vec;
pub mod camera;
pub mod events;
pub mod surface;
pub mod frame;
pub mod mat;
pub mod instance;
