use spinoff::pipeline::Stage;
use spinoff::camera::{CameraController, KeyCode};
use spinoff::state::{surface_error_action, FrameRecovery, State, SurfaceErrorKind, TextureChoice, SAMPLE_COUNT};
use spinoff::frame::frame_passes;

#[test]
fn new_state_is_not_configured_and_renders_nothing() {
    let s = State::new(800, 600);
    assert!(!s.is_surface_configured);
    assert_eq!(s.sample_count, SAMPLE_COUNT);
    assert!(s.render().is_none());
}

#[test]
fn resize_zero_keeps_state() {
    let mut s = State::new(800, 600);
    assert!(s.resize(1024, 768));
    let before = s;
    assert!(!s.resize(0, 0));
    assert_eq!(s, before);
    assert!(!s.resize(0, 500));
    assert!(!s.resize(500, 0));
    assert_eq!(s, before);
    assert_eq!((s.width, s.height), (1024, 768));
    assert!(s.is_surface_configured);
}

#[test]
fn resize_zero_before_configuration_stays_unconfigured() {
    let mut s = State::new(0, 0);
    assert!(!s.resize(0, 0));
    assert!(!s.is_surface_configured);
    assert!(s.render().is_none());
}

#[test]
fn resize_configures_and_render_plans_frame() {
    let mut s = State::new(10, 10);
    assert!(s.resize(1920, 1080));
    assert!(s.is_surface_configured);
    assert_eq!(s.width, 1920);
    assert_eq!(s.height, 1080);
    let passes = s.render().unwrap();
    assert_eq!(passes, frame_passes(true));
    assert_eq!(passes.len(), 5);
}

#[test]
fn depth_stencil_follows_surface_size() {
    let mut s = State::new(0, 0);
    let t = s.depth_stencil();
    assert_eq!((t.width, t.height, t.sample_count), (1, 1, 4));
    s.resize(640, 480);
    let t = s.depth_stencil();
    assert_eq!((t.width, t.height, t.sample_count), (640, 480, 4));
    assert!(s.uses_multisampled_target());
}

#[test]
fn keys_update_controller_and_space() {
    let mut s = State::new(100, 100);
    assert!(!s.handle_key(KeyCode::KeyW, true));
    assert!(s.camera_controller.is_forward_pressed);
    assert!(!s.handle_key(KeyCode::ArrowLeft, true));
    assert!(s.camera_controller.is_left_pressed);
    assert!(!s.handle_key(KeyCode::KeyW, false));
    assert!(!s.camera_controller.is_forward_pressed);
    assert_eq!(s.texture_choice(), TextureChoice::Diffuse);
    assert!(!s.handle_key(KeyCode::Space, true));
    assert_eq!(s.texture_choice(), TextureChoice::Alternate);
    assert!(!s.handle_key(KeyCode::Space, false));
    assert_eq!(s.texture_choice(), TextureChoice::Diffuse);
    assert!(!s.handle_key(KeyCode::Escape, false));
    assert!(s.handle_key(KeyCode::Escape, true));
}

#[test]
fn controller_keys() {
    let mut c = CameraController::new();
    c.handle_key(KeyCode::ArrowDown, true);
    assert!(c.is_backward_pressed);
    c.handle_key(KeyCode::KeyD, true);
    assert!(c.is_right_pressed);
    let before = c;
    c.handle_key(KeyCode::Other, true);
    assert_eq!(c, before);
    c.handle_key(KeyCode::KeyS, false);
    assert!(!c.is_backward_pressed);
    assert!(c.is_right_pressed);
}

#[test]
fn surface_errors() {
    assert_eq!(surface_error_action(SurfaceErrorKind::Lost), FrameRecovery::Reconfigure);
    assert_eq!(surface_error_action(SurfaceErrorKind::Outdated), FrameRecovery::Reconfigure);
    assert_eq!(surface_error_action(SurfaceErrorKind::OutOfMemory), FrameRecovery::Exit);
    assert_eq!(surface_error_action(SurfaceErrorKind::Timeout), FrameRecovery::SkipFrame);
    assert_eq!(surface_error_action(SurfaceErrorKind::Other), FrameRecovery::SkipFrame);
}

#[test]
fn pipeline_set_matches_attachment_samples() {
    let s = State::new(320, 200);
    let set = s.pipeline_set();
    let stages: Vec<Stage> = set.iter().map(|p| p.stage).collect();
    assert_eq!(
        stages,
        vec![Stage::StencilMask, Stage::DebugOverlay, Stage::Reflection, Stage::MainScene, Stage::MirrorSurface]
    );
    for p in &set {
        assert_eq!(p.sample_count, s.depth_stencil().sample_count);
    }
}
