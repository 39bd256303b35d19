use gs_renderer::render_state::{FramePlan, RenderState};
use gs_renderer::stereo::{StereoLayout, StereoPlan};

fn loaded_state(width: u32, height: u32) -> RenderState {
    let mut state = RenderState::new(width, height);
    state.load_model();
    state
}

#[test]
fn new_state_raises_zero_canvas_size_to_one() {
    let state = RenderState::new(0, 0);
    assert_eq!(state.width(), 1);
    assert_eq!(state.height(), 1);
    assert!(state.needs_update());

    let state = RenderState::new(800, 600);
    assert_eq!((state.width(), state.height()), (800, 600));
}

#[test]
fn render_without_model_draws_nothing() {
    let state = RenderState::new(800, 600);
    assert_eq!(state.render(false, false), FramePlan::Skip);
    assert_eq!(state.render(true, false), FramePlan::Skip);
    assert_eq!(state.render(false, true), FramePlan::Skip);
}

#[test]
fn render_after_load_draws_at_surface_size() {
    let state = loaded_state(800, 600);
    assert_eq!(state.render(true, true), FramePlan::Draw { width: 800, height: 600 });
}

#[test]
fn presented_frame_is_not_redrawn() {
    let mut state = loaded_state(800, 600);
    assert_eq!(state.render(true, true), FramePlan::Draw { width: 800, height: 600 });
    state.frame_presented();
    assert!(!state.needs_update());
    assert_eq!(state.render(true, true), FramePlan::Skip);
    assert_eq!(state.render(true, true), FramePlan::Skip);
}

#[test]
fn failed_frame_is_retried() {
    let state = loaded_state(640, 480);
    // The frame could not be acquired: it is never reported as presented.
    assert_eq!(state.render(true, true), FramePlan::Draw { width: 640, height: 480 });
    assert_eq!(state.render(true, true), FramePlan::Draw { width: 640, height: 480 });
}

#[test]
fn resize_with_zero_dimension_is_ignored() {
    let mut state = loaded_state(800, 600);
    state.frame_presented();
    assert!(!state.resize(0, 300));
    assert!(!state.resize(300, 0));
    assert_eq!((state.width(), state.height()), (800, 600));
    assert_eq!(state.render(true, true), FramePlan::Skip);
}

#[test]
fn resize_redraws_at_new_size() {
    let mut state = loaded_state(800, 600);
    state.frame_presented();
    assert!(state.resize(1920, 1080));
    assert_eq!(state.render(true, true), FramePlan::Draw { width: 1920, height: 1080 });
}

#[test]
fn camera_updates_apply_only_with_a_camera() {
    let mut state = loaded_state(800, 600);
    state.frame_presented();
    assert!(!state.move_camera(false));
    assert!(!state.set_camera(false));
    assert!(!state.set_camera_with_threshold(true, false));
    assert!(!state.needs_update());

    assert!(state.move_camera(true));
    assert!(state.needs_update());
    state.frame_presented();
    assert!(state.set_camera(true));
    assert!(state.needs_update());
}

#[test]
fn pose_within_threshold_is_ignored() {
    let mut state = loaded_state(800, 600);
    state.frame_presented();
    assert!(!state.set_camera_with_threshold(false, true));
    assert_eq!(state.render(true, true), FramePlan::Skip);
    assert!(state.set_camera_with_threshold(true, true));
    assert_eq!(state.render(true, true), FramePlan::Draw { width: 800, height: 600 });
}

#[test]
fn model_transform_applies_only_with_a_viewer() {
    let mut state = loaded_state(800, 600);
    state.frame_presented();
    assert!(!state.set_model_transform(false));
    assert!(!state.needs_update());
    assert!(state.set_model_transform(true));
    assert!(state.needs_update());
}

#[test]
fn stereo_cameras_always_mark_stale() {
    let mut state = RenderState::new(800, 600);
    state.frame_presented();
    state.set_stereo_cameras();
    assert!(state.needs_update());
}

#[test]
fn stereo_frame_splits_surface_in_halves() {
    let state = loaded_state(1600, 900);
    let plan = state.render_stereo(true, None);
    assert_eq!(
        plan,
        StereoPlan::Draw(StereoLayout {
            eye_width: 800,
            eye_height: 900,
            recreate_offscreen: true,
            left_origin_x: 0,
            right_origin_x: 800,
        })
    );
}

#[test]
fn stereo_frame_with_odd_width_drops_last_column() {
    let state = loaded_state(1601, 900);
    match state.render_stereo(true, Some((800, 900))) {
        StereoPlan::Draw(layout) => {
            assert_eq!(layout.eye_width, 800);
            assert!(!layout.recreate_offscreen);
            assert_eq!(layout.right_origin_x + layout.eye_width, 1600);
        }
        StereoPlan::Skip => panic!("expected a stereo frame"),
    }
}

#[test]
fn stereo_offscreen_texture_recreated_on_size_change() {
    let mut state = loaded_state(1600, 900);
    assert!(state.resize(1200, 900));
    match state.render_stereo(true, Some((800, 900))) {
        StereoPlan::Draw(layout) => {
            assert!(layout.recreate_offscreen);
            assert_eq!((layout.eye_width, layout.eye_height), (600, 900));
        }
        StereoPlan::Skip => panic!("expected a stereo frame"),
    }
}

#[test]
fn stereo_frame_needs_viewer_and_staleness() {
    let mut state = loaded_state(1600, 900);
    assert_eq!(state.render_stereo(false, None), StereoPlan::Skip);
    state.frame_presented();
    assert_eq!(state.render_stereo(true, None), StereoPlan::Skip);
}
