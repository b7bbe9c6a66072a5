use sph_gl::passes::{frame_plan, Barrier, Pass, Stage, IMAGE_HEIGHT, IMAGE_WIDTH};

fn pass(stage: Stage, x: u32, y: u32, barrier: Barrier) -> Pass {
    Pass { stage, groups_x: x, groups_y: y, groups_z: 1, barrier }
}

#[test]
fn running_frame() {
    let p = frame_plan(300, false);
    assert!(p.upload_params);
    assert_eq!(
        p.passes,
        vec![
            pass(Stage::DensityClear, 300, 1, Barrier::Storage),
            pass(Stage::Density, 300, 300, Barrier::Storage),
            pass(Stage::DensityFinish, 300, 1, Barrier::NoBarrier),
            pass(Stage::ForceClear, 300, 1, Barrier::Storage),
            pass(Stage::Force, 300, 300, Barrier::Storage),
            pass(Stage::ForceFinish, 300, 1, Barrier::Storage),
            pass(Stage::Integrate, 300, 1, Barrier::Storage),
            pass(Stage::ClearImage, 1600, 900, Barrier::VertexAndImage),
            pass(Stage::Draw, 300, 1, Barrier::VertexAndImage),
        ]
    );
}

#[test]
fn paused_frame() {
    let p = frame_plan(0, true);
    assert!(!p.upload_params);
    assert_eq!(
        p.passes,
        vec![
            pass(Stage::ClearImage, IMAGE_WIDTH, IMAGE_HEIGHT, Barrier::VertexAndImage),
            pass(Stage::Draw, 0, 1, Barrier::VertexAndImage),
        ]
    );
    let running = frame_plan(0, false);
    assert_eq!(&running.passes[7..], &p.passes[..]);
}
