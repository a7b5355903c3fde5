use spinoff::frame::{
    frame_passes, reflection_pass, stencil_mask_pass, CameraSource, Draw, LoadOp, StoreOp,
};
use spinoff::pipeline::{Pipeline, Stage, STENCIL_REFERENCE};

#[test]
fn frame_order_with_overlay() {
    let stages: Vec<Stage> = frame_passes(true).iter().map(|p| p.stage).collect();
    assert_eq!(
        stages,
        vec![
            Stage::StencilMask,
            Stage::DebugOverlay,
            Stage::Reflection,
            Stage::MainScene,
            Stage::MirrorSurface
        ]
    );
}

#[test]
fn frame_order_without_overlay() {
    let stages: Vec<Stage> = frame_passes(false).iter().map(|p| p.stage).collect();
    assert_eq!(
        stages,
        vec![Stage::StencilMask, Stage::Reflection, Stage::MainScene, Stage::MirrorSurface]
    );
}

#[test]
fn stencil_pass_clears_stencil_only() {
    let p = stencil_mask_pass();
    assert!(p.color.is_none());
    assert!(p.depth.is_none());
    let s = p.stencil.unwrap();
    assert_eq!(s.load, LoadOp::Clear);
    assert_eq!(s.store, StoreOp::Store);
    assert_eq!(p.stencil_reference, Some(STENCIL_REFERENCE));
    assert_eq!(p.draw, Draw::MirrorQuad);
}

#[test]
fn reflection_pass_clears_depth_and_keeps_mask() {
    let frame = frame_passes(true);
    let r = frame[2];
    assert_eq!(r.stage, Stage::Reflection);
    assert_eq!(r.depth.unwrap().load, LoadOp::Clear);
    assert_eq!(r.stencil.unwrap().load, LoadOp::Load);
    assert_eq!(r.color.unwrap().load, LoadOp::Load);
    assert_eq!(r.camera, Some(CameraSource::Reflected));
    assert_eq!(r.stencil_reference, Some(1));
}

#[test]
fn reflection_pass_clears_color_when_first_to_draw() {
    let frame = frame_passes(false);
    assert_eq!(frame[1].color.unwrap().load, LoadOp::Clear);
    assert_eq!(reflection_pass(true).color.unwrap().load, LoadOp::Clear);
    assert_eq!(reflection_pass(false).color.unwrap().load, LoadOp::Load);
}

#[test]
fn later_passes_load_and_never_clear_stencil() {
    for debug in [true, false] {
        let frame = frame_passes(debug);
        for p in frame.iter().skip(1) {
            if let Some(ops) = p.stencil {
                assert_eq!(ops.load, LoadOp::Load);
            }
            assert!(p.color.unwrap().store == StoreOp::Store);
        }
        let main = frame[frame.len() - 2];
        assert_eq!(main.stage, Stage::MainScene);
        assert_eq!(main.depth.unwrap().load, LoadOp::Load);
        assert!(main.stencil.is_none());
        assert_eq!(main.camera, Some(CameraSource::Primary));
        let mirror = frame[frame.len() - 1];
        assert_eq!(mirror.depth.unwrap().load, LoadOp::Load);
        assert!(mirror.stencil.is_none());
        assert_eq!(mirror.draw, Draw::MirrorQuad);
    }
}

#[test]
fn passes_bind_color_exactly_when_pipeline_has_target() {
    for p in frame_passes(true) {
        let pipeline = Pipeline::for_stage(p.stage, 4);
        let has_target = pipeline.color != spinoff::pipeline::ColorOutput::Disabled;
        assert_eq!(p.color.is_some(), has_target);
        assert_eq!(p.stencil_reference.is_some(), p.stencil.is_some());
    }
}
