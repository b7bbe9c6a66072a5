//! Verified control logic of a GPU smoothed-particle-hydrodynamics demo:
//! where new particles are placed, how input events and frame ticks change
//! the simulation state, which compute passes run in a frame, and how the
//! quad mesh is laid out for the vertex pipeline.

pub mod rng;
pub mod spawn;
pub mod control;
pub mod passes;
pub mod mesh;
pub mod shader;
