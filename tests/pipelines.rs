use spinoff::pipeline::{
    bind_group_layout_entries, depth_stencil_for, BindGroupKind, BindingType, ColorOutput,
    CompareFunction, CullMode, Pipeline, Stage, StencilOperation, VertexBufferKind, Visibility,
    STENCIL_REFERENCE,
};

#[test]
fn mask_pipeline_replaces_stencil_without_depth_or_color() {
    let p = Pipeline::mask_render_pipeline(4);
    assert_eq!(p.stage, Stage::StencilMask);
    assert_eq!(p.color, ColorOutput::Disabled);
    assert!(!p.depth_stencil.depth_write_enabled);
    assert_eq!(p.depth_stencil.depth_compare, CompareFunction::Always);
    assert_eq!(p.depth_stencil.stencil.front.compare, CompareFunction::Always);
    assert_eq!(p.depth_stencil.stencil.front.pass_op, StencilOperation::Replace);
    assert_eq!(p.depth_stencil.stencil.back.pass_op, StencilOperation::Replace);
    assert_eq!(p.depth_stencil.stencil.write_mask, 0xFF);
    assert_eq!(p.bind_groups, vec![BindGroupKind::Camera]);
    assert_eq!(p.sample_count, 4);
}

#[test]
fn main_pipeline_depth_less_with_writes_and_no_stencil() {
    let p = Pipeline::build_render_pipeline(1);
    assert_eq!(p.stage, Stage::MainScene);
    assert!(p.depth_stencil.depth_write_enabled);
    assert_eq!(p.depth_stencil.depth_compare, CompareFunction::Less);
    assert_eq!(p.depth_stencil.stencil.write_mask, 0);
    assert_eq!(p.depth_stencil.stencil.read_mask, 0);
    assert_eq!(p.depth_stencil.stencil.front.compare, CompareFunction::Always);
    assert_eq!(p.cull_mode, CullMode::Back);
    assert_eq!(p.color, ColorOutput::Replace);
    assert_eq!(
        p.bind_groups,
        vec![BindGroupKind::Texture, BindGroupKind::Camera, BindGroupKind::Spin, BindGroupKind::MirrorPlane]
    );
    assert_eq!(p.vertex_buffers, vec![VertexBufferKind::Vertex, VertexBufferKind::Instance]);
    assert_eq!(p.sample_count, 1);
}

#[test]
fn reflection_pipeline_tests_stencil_equal_on_both_faces_without_culling() {
    let p = Pipeline::reflection_render_pipeline(4);
    assert_eq!(p.stage, Stage::Reflection);
    assert!(p.depth_stencil.depth_write_enabled);
    assert_eq!(p.depth_stencil.depth_compare, CompareFunction::Less);
    assert_eq!(p.depth_stencil.stencil.front.compare, CompareFunction::Equal);
    assert_eq!(p.depth_stencil.stencil.back.compare, CompareFunction::Equal);
    assert_eq!(p.depth_stencil.stencil.front.pass_op, StencilOperation::Keep);
    assert_eq!(p.depth_stencil.stencil.write_mask, 0);
    assert_eq!(p.cull_mode, CullMode::Off);
}

#[test]
fn mirror_surface_pipeline_blends_without_depth_writes() {
    let p = Pipeline::mirror_surface_render_pipeline(4);
    assert_eq!(p.stage, Stage::MirrorSurface);
    assert!(!p.depth_stencil.depth_write_enabled);
    assert_eq!(p.depth_stencil.depth_compare, CompareFunction::Less);
    assert_eq!(p.depth_stencil.stencil.write_mask, 0);
    assert_eq!(p.color, ColorOutput::AlphaBlend);
    assert_eq!(p.bind_groups, vec![BindGroupKind::Camera]);
}

#[test]
fn debug_pipeline_always_passes_depth_and_tests_stencil() {
    let p = Pipeline::debug_render_pipeline(4);
    assert_eq!(p.stage, Stage::DebugOverlay);
    assert!(!p.depth_stencil.depth_write_enabled);
    assert_eq!(p.depth_stencil.depth_compare, CompareFunction::Always);
    assert_eq!(p.depth_stencil.stencil.front.compare, CompareFunction::Equal);
    assert_eq!(p.depth_stencil.stencil.write_mask, 0);
    assert!(p.bind_groups.is_empty());
    assert!(p.vertex_buffers.is_empty());
    assert_eq!(p.color, ColorOutput::Opaque);
}

#[test]
fn for_stage_agrees_with_named_builders() {
    let stages = [
        Stage::StencilMask,
        Stage::DebugOverlay,
        Stage::Reflection,
        Stage::MainScene,
        Stage::MirrorSurface,
    ];
    for stage in stages {
        let p = Pipeline::for_stage(stage, 2);
        assert_eq!(p.stage, stage);
        assert_eq!(p.depth_stencil, depth_stencil_for(stage));
        assert_eq!(p.sample_count, 2);
    }
    assert_eq!(STENCIL_REFERENCE, 1);
}

#[test]
fn bind_group_layouts() {
    let tex = bind_group_layout_entries(BindGroupKind::Texture);
    assert_eq!(tex.len(), 2);
    assert_eq!(tex[0].binding, 0);
    assert_eq!(tex[0].ty, BindingType::Texture2d);
    assert_eq!(tex[1].binding, 1);
    assert_eq!(tex[1].ty, BindingType::FilteringSampler);
    assert_eq!(tex[1].visibility, Visibility::Fragment);
    let cam = bind_group_layout_entries(BindGroupKind::Camera);
    assert_eq!(cam.len(), 1);
    assert_eq!(cam[0].visibility, Visibility::Vertex);
    assert_eq!(cam[0].ty, BindingType::UniformBuffer);
    let plane = bind_group_layout_entries(BindGroupKind::MirrorPlane);
    assert_eq!(plane[0].visibility, Visibility::VertexFragment);
}
