//! Core logic for driving a volumetric surface extraction run against a
//! host-provided signed-distance field and handing the resulting mesh
//! buffers back to the host.
//!
//! The numeric (floating-point) transform, the SDF sampling adapter and the
//! foreign calls live outside this library; what is verified here is the
//! discrete logic of a run: grid resolution selection, configuration
//! validation, mesh buffer well-formedness, and the single-shot buffer
//! handoff protocol.

pub mod config;
pub mod handoff;
pub mod mesh_data;
pub mod resolution;

pub use crate::resolution::next_power_of_two;
