//! The compute passes that make up one frame.
//!
//! While the simulation runs, every frame first uploads the simulation
//! parameters and then runs the physics: density (clear, pairwise sum,
//! finish), forces (clear, pairwise sum, finish) and integration of the
//! positions. Every frame, running or paused, then clears the output image
//! and draws the particles into it. The pairwise passes dispatch one work
//! group per pair of particles, the others one per particle.

use vstd::prelude::*;

verus! {

/// Width of the output image, in pixels.
pub const IMAGE_WIDTH: u32 = 1600;
/// Height of the output image, in pixels.
pub const IMAGE_HEIGHT: u32 = 900;

/// A compute shader of the pipeline.
#[derive(Clone, Copy, Debug, PartialEq, Eq)]
pub enum Stage {
    DensityClear,
    Density,
    DensityFinish,
    ForceClear,
    Force,
    ForceFinish,
    Integrate,
    ClearImage,
    Draw,
}

/// The memory barrier issued after a pass.
#[derive(Clone, Copy, Debug, PartialEq, Eq)]
pub enum Barrier {
    /// No barrier.
    NoBarrier,
    /// Shader-storage writes become visible to later passes.
    Storage,
    /// Vertex-attribute reads and then image accesses are ordered after the pass.
    VertexAndImage,
}

/// One dispatch of a compute shader.
#[derive(Clone, Copy, Debug, PartialEq, Eq)]
pub struct Pass {
    pub stage: Stage,
    pub groups_x: u32,
    pub groups_y: u32,
    pub groups_z: u32,
    pub barrier: Barrier,
}

/// The GPU work of one frame.
#[derive(Debug)]
pub struct FramePlan {
    /// Whether the simulation parameters are uploaded before the passes.
    pub upload_params: bool,
    /// The passes, in order.
    pub passes: Vec<Pass>,
}

pub open spec fn pass(stage: Stage, x: u32, y: u32, barrier: Barrier) -> Pass {
    Pass { stage, groups_x: x, groups_y: y, groups_z: 1, barrier }
}

/// The physics passes for `n` particles.
pub open spec fn physics_passes(n: u32) -> Seq<Pass> {
    seq![
        pass(Stage::DensityClear, n, 1, Barrier::Storage),
        pass(Stage::Density, n, n, Barrier::Storage),
        pass(Stage::DensityFinish, n, 1, Barrier::NoBarrier),
        pass(Stage::ForceClear, n, 1, Barrier::Storage),
        pass(Stage::Force, n, n, Barrier::Storage),
        pass(Stage::ForceFinish, n, 1, Barrier::Storage),
        pass(Stage::Integrate, n, 1, Barrier::Storage),
    ]
}

/// The rendering passes for `n` particles.
pub open spec fn render_passes(n: u32) -> Seq<Pass> {
    seq![
        pass(Stage::ClearImage, IMAGE_WIDTH, IMAGE_HEIGHT, Barrier::VertexAndImage),
        pass(Stage::Draw, n, 1, Barrier::VertexAndImage),
    ]
}

/// The passes of a frame with `n` particles.
pub open spec fn frame_passes(n: u32, paused: bool) -> Seq<Pass> {
    if paused { render_passes(n) } else { physics_passes(n) + render_passes(n) }
}

fn push_pass(v: &mut Vec<Pass>, stage: Stage, x: u32, y: u32, barrier: Barrier)
    ensures
        final(v)@ == old(v)@.push(pass(stage, x, y, barrier)),
{
    v.push(Pass { stage, groups_x: x, groups_y: y, groups_z: 1, barrier });
}

/// The GPU work of a frame with `num_particles` particles: the parameters
/// are uploaded and the physics passes run unless `paused`; the rendering
/// passes always run.
pub fn frame_plan(num_particles: usize, paused: bool) -> (p: FramePlan)
    requires
        num_particles <= u32::MAX,
    ensures
        p.upload_params == !paused,
        p.passes@ == frame_passes(num_particles as u32, paused),
{
    let n: u32 = num_particles as u32;
    let mut v: Vec<Pass> = Vec::new();
    if !paused {
        push_pass(&mut v, Stage::DensityClear, n, 1, Barrier::Storage);
        push_pass(&mut v, Stage::Density, n, n, Barrier::Storage);
        push_pass(&mut v, Stage::DensityFinish, n, 1, Barrier::NoBarrier);
        push_pass(&mut v, Stage::ForceClear, n, 1, Barrier::Storage);
        push_pass(&mut v, Stage::Force, n, n, Barrier::Storage);
        push_pass(&mut v, Stage::ForceFinish, n, 1, Barrier::Storage);
        push_pass(&mut v, Stage::Integrate, n, 1, Barrier::Storage);
    }
    push_pass(&mut v, Stage::ClearImage, IMAGE_WIDTH, IMAGE_HEIGHT, Barrier::VertexAndImage);
    push_pass(&mut v, Stage::Draw, n, 1, Barrier::VertexAndImage);
    proof {
        assert(v@ =~= frame_passes(n, paused));
    }
    FramePlan { upload_params: !paused, passes: v }
}

/// A paused frame runs exactly the rendering passes that end a running
/// frame, and no physics pass.
pub proof fn lemma_paused_frame_is_render_tail(n: u32)
    ensures
        frame_passes(n, false) == physics_passes(n) + frame_passes(n, true),
        forall|i: int| 0 <= i < frame_passes(n, true).len() ==> {
            let st = (#[trigger] frame_passes(n, true)[i]).stage;
            st == Stage::ClearImage || st == Stage::Draw
        },
{
}

/// A running frame has nine passes in a fixed order; the two pairwise
/// passes (density and force) dispatch `n x n` work groups, one per pair of
/// particles, every other particle pass `n x 1`, and the image clear one
/// group per pixel. A paused frame has only the last two of them.
pub proof fn lemma_frame_dispatch_sizes(n: u32)
    ensures
        frame_passes(n, false).len() == 9,
        frame_passes(n, true).len() == 2,
        frame_passes(n, false)[0].stage == Stage::DensityClear,
        frame_passes(n, false)[1].stage == Stage::Density,
        frame_passes(n, false)[2].stage == Stage::DensityFinish,
        frame_passes(n, false)[3].stage == Stage::ForceClear,
        frame_passes(n, false)[4].stage == Stage::Force,
        frame_passes(n, false)[5].stage == Stage::ForceFinish,
        frame_passes(n, false)[6].stage == Stage::Integrate,
        frame_passes(n, false)[7].stage == Stage::ClearImage,
        frame_passes(n, false)[8].stage == Stage::Draw,
        forall|i: int| 0 <= i < 9 ==> (#[trigger] frame_passes(n, false)[i]).groups_z == 1,
        forall|i: int| (i == 1 || i == 4) ==> (#[trigger] frame_passes(n, false)[i]).groups_x == n
            && frame_passes(n, false)[i].groups_y == n,
        forall|i: int| (i == 0 || i == 2 || i == 3 || i == 5 || i == 6 || i == 8)
            ==> (#[trigger] frame_passes(n, false)[i]).groups_x == n && frame_passes(n, false)[i].groups_y == 1,
        frame_passes(n, false)[7].groups_x == 1600 && frame_passes(n, false)[7].groups_y == 900,
        frame_passes(n, false)[2].barrier == Barrier::NoBarrier,
        forall|i: int| (i == 0 || i == 1 || i == 3 || i == 4 || i == 5 || i == 6)
            ==> (#[trigger] frame_passes(n, false)[i]).barrier == Barrier::Storage,
        frame_passes(n, false)[7].barrier == Barrier::VertexAndImage,
        frame_passes(n, false)[8].barrier == Barrier::VertexAndImage,
        frame_passes(n, true)[0] == frame_passes(n, false)[7],
        frame_passes(n, true)[1] == frame_passes(n, false)[8],
{
}

} // verus!
