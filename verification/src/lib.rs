//! Interaction core for a worker-hosted 3D picking pipeline.
//!
//! The library keeps, per pickable object, a cached world-space bounding
//! volume, casts cursor rays through a camera model, resolves hover /
//! selection / drag state in a fixed per-tick order, and decodes the
//! pointer, keyboard and wheel events that a foreign UI context forwards
//! as tagged messages.
//!
//! All geometry is carried in fixed-point coordinates: a value of type
//! `i64` counts thousandths of a world unit (see [`fixed::FIX_ONE`]), so
//! every computation in the crate is exact integer arithmetic.

pub mod fixed;
pub mod math;
pub mod bridge;
pub mod camera;
pub mod keyboard;
pub mod pick;
pub mod state;
pub mod texture;
