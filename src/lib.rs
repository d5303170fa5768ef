//! Neural-network activation primitives for a tensor-compute backend.
//!
//! The library owns the operation catalogue, the naming of device kernels,
//! the per-context kernel cache, and the planning of each kernel dispatch.
//! Driving the device itself is left to the surrounding runtime.

pub mod catalogue;
pub mod naming;
pub mod package;
pub mod dispatch;
