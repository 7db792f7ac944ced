use truvis_app::camera_control::{plan_camera_update, CameraAxis, CameraMove, CameraUpdatePlan, MovementKeys};
use truvis_app::debug_targets::{offline_debug_images, realtime_debug_images, DebugImageGraphState};
use truvis_app::dispatch::{compute_dispatch_groups, div_ceil_u32};
use truvis_app::dlss::{DlssRrPass, DlssSrPass};
use truvis_app::gizmo::{gizmo_rect, GizmoRect};
use truvis_app::input::{InputEvent, InputManager, MouseButton};
use truvis_app::overlay::{PipelineControlsOverlay, RenderControlsOverlay};
use truvis_app::render_modes::{RenderMode, RtDebugChannel};
use truvis_app::rt_shaders::{ShaderGroupStages, ShaderGroups, ShaderStages};
use truvis_app::text::{decimal_chars, normalize_config_value};

fn no_keys() -> MovementKeys {
    MovementKeys { forward: false, backward: false, left: false, right: false, up: false, down: false }
}

#[test]
fn middle_button_edges() {
    let mut input = InputManager::new();
    input.begin_frame();
    input.process_event(&InputEvent::MouseButtonInput { button: MouseButton::Middle, pressed: true });
    assert!(input.state().is_middle_button_pressed());
    assert!(input.state().is_middle_button_just_pressed());
    input.begin_frame();
    assert!(!input.state().is_middle_button_just_pressed());
    input.process_event(&InputEvent::MouseButtonInput { button: MouseButton::Middle, pressed: true });
    assert!(!input.state().is_middle_button_just_pressed());
    input.process_event(&InputEvent::MouseButtonInput { button: MouseButton::Middle, pressed: false });
    assert!(input.state().is_middle_button_just_released());
    assert!(!input.state().is_middle_button_pressed());
}

#[test]
fn keys_and_right_button() {
    let mut input = InputManager::new();
    assert!(!input.state().is_key_pressed(17));
    input.process_event(&InputEvent::KeyboardInput { key_code: 17, pressed: true });
    assert!(input.state().is_key_pressed(17));
    input.process_event(&InputEvent::KeyboardInput { key_code: 17, pressed: false });
    assert!(!input.state().is_key_pressed(17));
    input.process_event(&InputEvent::MouseButtonInput { button: MouseButton::Right, pressed: true });
    assert!(input.state().is_right_button_pressed());
    input.process_event(&InputEvent::MouseButtonInput { button: MouseButton::Left, pressed: false });
    input.process_event(&InputEvent::Other);
    assert!(input.state().is_right_button_pressed());
}

#[test]
fn camera_plan_pivot_and_free_fly() {
    match plan_camera_update(true, true, true, true, no_keys()) {
        CameraUpdatePlan::Pivot { start_raycast, continue_orbit } => {
            assert!(start_raycast);
            assert!(!continue_orbit);
        }
        CameraUpdatePlan::FreeFly { .. } => panic!("expected pivot"),
    }
    match plan_camera_update(true, false, true, false, no_keys()) {
        CameraUpdatePlan::Pivot { start_raycast, continue_orbit } => assert!(!start_raycast && continue_orbit),
        CameraUpdatePlan::FreeFly { .. } => panic!("expected pivot"),
    }
    let keys = MovementKeys { forward: true, backward: false, left: true, right: false, up: false, down: true };
    match plan_camera_update(false, false, true, true, keys) {
        CameraUpdatePlan::FreeFly { rotate, moves } => {
            assert!(rotate);
            assert_eq!(
                moves,
                vec![
                    CameraMove { axis: CameraAxis::Forward, positive: true },
                    CameraMove { axis: CameraAxis::Right, positive: false },
                    CameraMove { axis: CameraAxis::Up, positive: false },
                ]
            );
        }
        CameraUpdatePlan::Pivot { .. } => panic!("expected free flight"),
    }
}

#[test]
fn gizmo_rect_placement() {
    assert_eq!(gizmo_rect(0, 100), None);
    assert_eq!(gizmo_rect(1920, 1080), Some(GizmoRect { x: 1920 - 136, y: 1080 - 136, size: 112 }));
    assert_eq!(gizmo_rect(40, 100), Some(GizmoRect { x: 0, y: 50, size: 40 }));
    assert_eq!(gizmo_rect(3, 3), Some(GizmoRect { x: 0, y: 0, size: 3 }));
}

#[test]
fn overlay_decisions() {
    assert!(PipelineControlsOverlay::offline_supports_debug_channel(RtDebugChannel::BaseColor));
    assert!(!PipelineControlsOverlay::offline_supports_debug_channel(RtDebugChannel::SharcCache));
    assert!(!RenderControlsOverlay::offline_supports_debug_channel(RtDebugChannel::RestirTemporalValid));
    assert_eq!(PipelineControlsOverlay::offline_debug_channel(RtDebugChannel::SharcQueryDepth), RtDebugChannel::Final);
    assert_eq!(RenderControlsOverlay::offline_debug_channel(RtDebugChannel::Emission), RtDebugChannel::Emission);
    let choices = PipelineControlsOverlay::offline_debug_channel_choices();
    assert_eq!(choices.len(), 14);
    assert_eq!(choices[0], RtDebugChannel::Final);
    assert_eq!(choices[13], RtDebugChannel::DeltaMask);
    assert_eq!(RenderControlsOverlay::offline_debug_channel_choices(), choices);
    assert_eq!(PipelineControlsOverlay::effective_render_mode(RenderMode::Offline, false), RenderMode::Realtime);
    assert_eq!(PipelineControlsOverlay::effective_render_mode(RenderMode::Offline, true), RenderMode::Offline);
    assert!(PipelineControlsOverlay::dlss_controls_enabled(RenderMode::Realtime));
    assert!(!PipelineControlsOverlay::dlss_controls_enabled(RenderMode::Offline));
}

#[test]
fn dlss_pass_gating() {
    let rr = DlssRrPass::new();
    rr.destroy();
    DlssSrPass::new().destroy();
    assert!(DlssRrPass::should_evaluate(false, true));
    assert!(!DlssRrPass::should_evaluate(true, true));
    assert!(!DlssRrPass::should_evaluate(false, false));
}

#[test]
fn shader_tables() {
    assert_eq!(ShaderStages::TransAny.index(), 4);
    assert_eq!(ShaderGroups::Hit.index(), 3);
    assert_eq!(ShaderGroups::COUNT, 4);
    assert_eq!(ShaderGroups::SkyMiss.stages(), ShaderGroupStages::General { general: 1 });
    assert_eq!(ShaderGroups::Hit.stages(), ShaderGroupStages::TrianglesHit { closest_hit: 3, any_hit: 4 });
}

#[test]
fn dispatch_grid_rounds_up() {
    assert_eq!(compute_dispatch_groups(1920, 1080, 8, 8), [240, 135, 1]);
    assert_eq!(compute_dispatch_groups(1921, 1, 8, 8), [241, 1, 1]);
    assert_eq!(compute_dispatch_groups(0, 0, 16, 16), [0, 0, 1]);
    assert_eq!(div_ceil_u32(u32::MAX, 2), 2147483648);
}

#[test]
fn debug_image_plans() {
    let plain = realtime_debug_images(false, false);
    assert_eq!(plain.len(), 11);
    assert!(plain.iter().all(|p| p.graph_state == DebugImageGraphState::General));
    let rr = realtime_debug_images(true, true);
    assert_eq!(rr[0].id, "single-frame-rt");
    assert_eq!(rr[0].graph_state, DebugImageGraphState::StreamlineInputRead);
    assert_eq!(rr[8].id, "gbuffer-a");
    assert_eq!(rr[8].graph_state, DebugImageGraphState::StreamlineInputRead);
    assert_eq!(rr[9].graph_state, DebugImageGraphState::General);
    let sr = realtime_debug_images(true, false);
    assert_eq!(sr[3].graph_state, DebugImageGraphState::StreamlineInputRead);
    assert_eq!(sr[5].graph_state, DebugImageGraphState::General);
    let offline = offline_debug_images();
    assert_eq!(offline.len(), 3);
    assert_eq!(offline[1].label, "Offline Accum");
}

#[test]
fn text_helpers() {
    assert_eq!(normalize_config_value("  Ground_Truth\n"), "groundtruth".chars().collect::<Vec<_>>());
    assert_eq!(normalize_config_value("ÄB-c"), "Äbc".chars().collect::<Vec<_>>());
    assert_eq!(decimal_chars(305), vec!['3', '0', '5']);
}

#[test]
fn dlss_sr_evaluates_only_while_active() {
    assert!(DlssSrPass::should_evaluate(true));
    assert!(!DlssSrPass::should_evaluate(false));
}

#[test]
fn debug_channel_labels_are_distinct() {
    for (i, a) in RtDebugChannel::ALL.iter().enumerate() {
        for (j, b) in RtDebugChannel::ALL.iter().enumerate() {
            assert_eq!(a.label() == b.label(), i == j);
        }
    }
    assert_eq!(RtDebugChannel::Final.label(), "final");
    assert_eq!(RtDebugChannel::NeeHdri.label(), "from NEE HDRI");
    assert_eq!(RtDebugChannel::SharcCache.label(), "SHARC cache radiance");
}
