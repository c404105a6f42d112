//! Core of a shell-textured volumetric renderer: procedural shell-mesh
//! generation, an exact camera/projection model, a frame-paced scheduler and a
//! per-key input latch. Windowing and GPU submission live outside this crate.

pub mod input;
pub mod mat;
pub mod mesh;
pub mod program_state;
pub mod rat;
pub mod scheduler;
pub mod transform;
pub mod vertex;
