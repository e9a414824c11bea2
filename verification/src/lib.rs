//! Verified core of a GPU-resident 2D particle field.
//!
//! Particle state (position, velocity, color) lives in a single
//! authoritative GPU buffer, is advanced by an opaque compute kernel every
//! frame, projected into presentation buffers on the GPU, and drawn —
//! without any round-trip of particle data to the host. This crate holds
//! the parts of that pipeline that are plain data and arithmetic, stated
//! and proved: the record byte layout, the derivation of presentation
//! buffers, the compute-dispatch sizing, the per-frame timing rule, the
//! resize guard, and the per-frame command ordering. Scalars destined for
//! the GPU are carried as the bit patterns of the 32-bit floats the
//! kernels read; the surrounding application owns the device, the surface
//! and the clock and interprets the command plans built here.

pub mod derivation;
pub mod layout;
pub mod particle;
pub mod plan;
pub mod session;
pub mod simulation;
pub mod store;
pub mod surface;
pub mod timing;
