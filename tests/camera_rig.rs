use third_person::camera::mouse::{orbit_condition, orbit_mouse, zoom_condition, zoom_mouse};
use third_person::camera::offset::{toggle_x_offset, toggle_x_offset_condition, Offset};
use third_person::camera::orbit::OrbitState;
use third_person::camera::shared::{
    aim, aim_condition, sync_player_camera, toggle_cursor, toggle_cursor_condition, SharedPlugin,
};
use third_person::camera::zoom::Zoom;
use third_person::camera::{FrameInput, PlayerCamera};
use third_person::fixed::{FULL_TURN, HALF_TURN, QUARTER_TURN};

fn idle_input() -> FrameInput {
    FrameInput {
        dt: 16,
        pointer_delta: (0, 0),
        scroll: 0,
        viewport_size: (1_920_000, 1_080_000),
        cursor_lock_pressed: false,
        offset_toggle_pressed: false,
        aim_held: false,
        orbit_button_held: false,
    }
}

#[test]
fn zoom_starts_half_way_and_scrolls_in_proportion() {
    let mut z = Zoom::new(1500, 3000);
    assert_eq!(z.radius, 2250);
    assert_eq!(z.radius_copy, None);
    z.apply_scroll(1000, 1000);
    assert_eq!(z.radius, 2025);
}

#[test]
fn zoom_scroll_of_zero_changes_nothing() {
    let mut z = Zoom::new(1500, 3000);
    z.apply_scroll(0, 1000);
    assert_eq!(z.radius, 2250);
}

#[test]
fn zoom_huge_scroll_in_clamps_to_min() {
    let mut z = Zoom::new(1500, 3000);
    z.apply_scroll(1_000_000_000, 1000);
    assert_eq!(z.radius, 1500);
}

#[test]
fn zoom_huge_scroll_out_clamps_to_max() {
    let mut z = Zoom::new(1500, 3000);
    z.apply_scroll(-1_000_000_000, 1000);
    assert_eq!(z.radius, 3000);
}

#[test]
fn zoom_negative_scroll_zooms_out() {
    let mut z = Zoom::new(1500, 3000);
    z.apply_scroll(-1000, 2000);
    // 2.25 + 1 * 2.25 * 0.1 * 2 = 2.7
    assert_eq!(z.radius, 2700);
}

#[test]
fn aim_first_frame_steps_towards_target() {
    let mut z = Zoom::new(1500, 3000);
    z.apply_aim(true, 700, 3000, 100);
    // step = (2.25 / 0.7) * 3 * 0.1 = 0.964
    assert_eq!(z.radius, 1286);
    assert_eq!(z.radius_copy, Some(2250));
}

#[test]
fn aim_stops_exactly_at_target() {
    let mut z = Zoom::new(1500, 3000);
    z.apply_aim(true, 700, 3000, 100);
    z.apply_aim(true, 700, 3000, 100);
    // 1.286 - 0.964 < 1.05: stops at 1.5 * 0.7
    assert_eq!(z.radius, 1050);
    z.apply_aim(true, 700, 3000, 100);
    assert_eq!(z.radius, 1050);
    assert_eq!(z.radius_copy, Some(2250));
}

#[test]
fn aim_release_restores_radius_and_forgets_it() {
    let mut z = Zoom::new(1500, 3000);
    z.apply_aim(true, 700, 3000, 100);
    z.apply_aim(false, 700, 3000, 1000);
    assert_eq!(z.radius, 2250);
    assert_eq!(z.radius_copy, None);
}

#[test]
fn aim_release_moves_back_gradually() {
    let mut z = Zoom::new(1500, 3000);
    z.apply_aim(true, 700, 3000, 100);
    z.apply_aim(true, 700, 3000, 100);
    assert_eq!(z.radius, 1050);
    z.apply_aim(false, 700, 3000, 100);
    assert_eq!(z.radius, 2014);
    assert_eq!(z.radius_copy, Some(2250));
    z.apply_aim(false, 700, 3000, 100);
    assert_eq!(z.radius, 2250);
    assert_eq!(z.radius_copy, None);
}

#[test]
fn aim_not_aiming_without_saved_radius_is_a_no_op() {
    let mut z = Zoom::new(1500, 3000);
    z.apply_aim(false, 700, 3000, 100);
    assert_eq!(z.radius, 2250);
    assert_eq!(z.radius_copy, None);
}

#[test]
fn offset_toggle_then_tick_clamps_to_negative_bound() {
    let mut o = Offset::new(500, 400);
    o.toggle();
    o.tick(1000, 5000);
    assert_eq!(o.offset, (-500, 400));
}

#[test]
fn offset_tick_moves_by_speed_times_dt() {
    let mut o = Offset::new(500, 400);
    o.toggle();
    o.tick(100, 5000);
    assert_eq!(o.offset.0, 0);
    o.tick(16, 5000);
    assert_eq!(o.offset.0, -80);
    o.toggle();
    o.tick(16, 5000);
    assert_eq!(o.offset.0, 0);
}

#[test]
fn offset_never_leaves_its_bound() {
    let mut o = Offset::new(500, 400);
    let dts = [0u32, 1, 16, 33, 100, 1000, 4_000_000_000];
    for (i, dt) in dts.iter().enumerate() {
        for _ in 0..3 {
            if i % 2 == 0 {
                o.toggle();
            }
            o.tick(*dt, 5000);
            assert!(o.offset.0 >= -500 && o.offset.0 <= 500);
            assert_eq!(o.offset.1, 400);
        }
    }
}

#[test]
fn orbit_zero_motion_changes_nothing() {
    let mut s = OrbitState::new(123, 456);
    s.apply_motion((0, 0), (1000, 1000), (1_000_000, 1_000_000));
    assert_eq!((s.yaw, s.pitch), (123, 456));
}

#[test]
fn orbit_motion_turns_yaw_and_pitch() {
    let mut s = OrbitState::new(0, 0);
    // 100 px across a 1000 px viewport at sensitivity 1 turns 0.1 pi.
    s.apply_motion((100_000, 50_000), (1000, 1000), (1_000_000, 1_000_000));
    assert_eq!(s.yaw, FULL_TURN - HALF_TURN / 10);
    assert_eq!(s.pitch, -HALF_TURN / 20);
}

#[test]
fn orbit_rejects_pitch_past_vertical_but_keeps_yaw() {
    let mut s = OrbitState::new(0, 400_000_000);
    s.apply_motion((100_000, -200_000), (1000, 1000), (1_000_000, 1_000_000));
    assert_eq!(s.pitch, 400_000_000);
    assert_eq!(s.yaw, 1_900_000_000);
    // Again: still rejected, yaw keeps turning.
    s.apply_motion((100_000, -200_000), (1000, 1000), (1_000_000, 1_000_000));
    assert_eq!(s.pitch, 400_000_000);
    assert_eq!(s.yaw, 1_800_000_000);
}

#[test]
fn orbit_rejects_pitch_exactly_vertical() {
    let mut s = OrbitState::new(0, 0);
    s.apply_motion((0, -500_000), (1000, 1000), (1_000_000, 1_000_000));
    assert_eq!(s.pitch, 0);
    s.apply_motion((0, -499_000), (1000, 1000), (1_000_000, 1_000_000));
    assert_eq!(s.pitch, 499_000_000);
    assert!(s.pitch < QUARTER_TURN);
}

#[test]
fn orbit_new_reduces_yaw_to_one_turn() {
    let s = OrbitState::new(-1, 0);
    assert_eq!(s.yaw, FULL_TURN - 1);
    let t = OrbitState::new(FULL_TURN * 3 + 7, 0);
    assert_eq!(t.yaw, 7);
    assert!(OrbitState::is_gated(true));
    assert!(!OrbitState::is_gated(false));
}

#[test]
fn player_camera_defaults() {
    let cam = PlayerCamera::default();
    assert!(!cam.aim_enabled);
    assert_eq!(cam.aim_speed, 3000);
    assert_eq!(cam.aim_zoom, 700);
    assert!(cam.cursor_lock_active);
    assert!(cam.cursor_lock_toggle_enabled);
    assert_eq!(cam.offset.offset, (500, 400));
    assert_eq!(cam.offset_toggle_speed, 5000);
    assert!(cam.zoom_enabled);
    assert_eq!((cam.zoom.min, cam.zoom.max, cam.zoom.radius), (1500, 3000, 2250));
    assert_eq!(cam.sensitivity, (1000, 1000));
    assert_eq!((cam.orbit.yaw, cam.orbit.pitch), (0, 0));
}

#[test]
fn conditions_follow_settings() {
    let mut cam = PlayerCamera::default();
    assert!(orbit_condition(&cam));
    assert!(zoom_condition(&cam));
    assert!(!toggle_x_offset_condition(&cam));
    assert!(!aim_condition(&cam));
    assert!(toggle_cursor_condition(&cam));
    cam.cursor_lock_active = false;
    assert!(!orbit_condition(&cam));
    assert!(!zoom_condition(&cam));
}

#[test]
fn systems_step_the_rig() {
    let mut cam = PlayerCamera::default();
    zoom_mouse(&mut cam, 1000);
    assert_eq!(cam.zoom.radius, 2025);
    orbit_mouse(&mut cam, (100_000, 0), false, (1_000_000, 1_000_000));
    assert_eq!(cam.orbit.yaw, FULL_TURN - HALF_TURN / 10);
    cam.mouse_orbit_button_enabled = true;
    orbit_mouse(&mut cam, (100_000, 0), false, (1_000_000, 1_000_000));
    assert_eq!(cam.orbit.yaw, FULL_TURN - HALF_TURN / 10);
    toggle_x_offset(&mut cam, true, 100);
    assert_eq!(cam.offset.offset.0, 0);
    assert!(aim(&mut cam, true, 100));
    assert_eq!(cam.zoom.radius_copy, Some(2025));
    assert!(!toggle_cursor(&mut cam, true));
    assert!(toggle_cursor(&mut cam, true));
    assert!(toggle_cursor(&mut cam, false));
}

#[test]
fn sync_places_camera_behind_target() {
    let mut cam = PlayerCamera::default();
    assert_eq!(sync_player_camera(&cam), (0, 0, 2250));
    cam.offset_enabled = true;
    assert_eq!(sync_player_camera(&cam), (500, 400, 2250));
}

#[test]
fn update_idle_frame_keeps_state() {
    let mut cam = PlayerCamera::default();
    let f = cam.update(&idle_input());
    assert_eq!((f.yaw, f.pitch), (0, 0));
    assert_eq!(f.local_offset, (0, 0, 2250));
    assert!(f.cursor_locked);
    assert!(!f.face_target);
}

#[test]
fn update_composes_orbit_zoom_offset_and_aim() {
    let mut cam = PlayerCamera::default();
    cam.aim_enabled = true;
    cam.offset_enabled = true;
    cam.offset_toggle_enabled = true;
    let mut input = idle_input();
    input.dt = 100;
    input.pointer_delta = (192_000, 0);
    input.scroll = 1000;
    input.offset_toggle_pressed = true;
    input.aim_held = true;
    let f = cam.update(&input);
    // yaw: 192 px over 1920 px is a tenth of pi
    assert_eq!(f.yaw, FULL_TURN - HALF_TURN / 10);
    // scroll to 2.025, then aim: step = 2.025 / 0.7 * 3 * 0.1 = 0.867
    assert_eq!(cam.zoom.radius_copy, Some(2025));
    assert_eq!(f.local_offset, (0, 400, 2025 - 867));
    assert!(f.face_target);
    assert!(f.cursor_locked);
}

#[test]
fn update_cursor_unlock_stops_orbit_and_zoom() {
    let mut cam = PlayerCamera::default();
    let mut input = idle_input();
    input.cursor_lock_pressed = true;
    input.pointer_delta = (192_000, 0);
    input.scroll = 1000;
    let f = cam.update(&input);
    assert!(!f.cursor_locked);
    assert_eq!(f.yaw, 0);
    assert_eq!(f.local_offset, (0, 0, 2250));
}

#[test]
fn update_aim_disabled_does_not_aim() {
    let mut cam = PlayerCamera::default();
    let mut input = idle_input();
    input.aim_held = true;
    let f = cam.update(&input);
    assert!(!f.face_target);
    assert_eq!(cam.zoom.radius, 2250);
    assert_eq!(cam.zoom.radius_copy, None);
}

#[test]
fn shared_plugin_runs_enabled_systems_only() {
    let mut cam = PlayerCamera::default();
    let f = SharedPlugin.run(&mut cam, true, true, true, 100);
    assert!(!f.face_target);
    assert_eq!(cam.zoom.radius, 2250);
    assert_eq!(cam.offset.offset.0, 500);
    assert_eq!(f.cursor_locked, Some(false));
    assert_eq!(f.local_offset, (0, 0, 2250));
    cam.aim_enabled = true;
    cam.offset_toggle_enabled = true;
    cam.cursor_lock_toggle_enabled = false;
    let f = SharedPlugin.run(&mut cam, true, true, true, 100);
    assert!(f.face_target);
    assert_eq!(cam.zoom.radius, 1286);
    assert_eq!(cam.offset.offset.0, 0);
    assert_eq!(f.cursor_locked, None);
    assert!(!cam.cursor_lock_active);
}
