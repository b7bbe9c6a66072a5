# sph_gl

Control logic of a GPU smoothed-particle-hydrodynamics demo, verified with
Verus.

- `src/spawn.rs`: where new particles are placed (a jittered grid).
- `src/control.rs`: the simulation state machine — input events, bursts of
  particles added and removed, the frame-rate counter — and its laws.
- `src/passes.rs`: the compute passes that make up a frame.
- `src/mesh.rs`: the vertex layout of the quad the image is drawn on.
- `src/shader.rs`: shader source and compile-log preparation.
- `src/rng.rs`: the random source (the `rand` crate).
- `app/`: the SDL2/OpenGL/imgui program that performs what the library
  decides.
