use third_person::player::camera::{update_camera_controller, CameraController};
use third_person::player::controller::{
    free_look, input_movement, movement_wish, update_camera_perspective, MovementKeys,
    PlayerControllerState,
};
use third_person::player::walk::{player_movement, WalkKeys};
use third_person::player::zoom::{zoom, Zoom};
use third_person::player::Player;

fn no_keys() -> MovementKeys {
    MovementKeys {
        forward: false,
        back: false,
        left: false,
        right: false,
        sprint: false,
        jump: false,
        main_menu: false,
    }
}

#[test]
fn controller_zoom_new_is_half_way() {
    let z = Zoom::new(1500, 3000);
    assert_eq!(z.radius, 2250);
}

#[test]
fn controller_zoom_only_in_third_person() {
    let mut cam = CameraController::default();
    zoom(&mut cam, 1000);
    assert_eq!(cam.zoom.radius, 2250);
    cam.is_first_person = false;
    zoom(&mut cam, 1000);
    assert_eq!(cam.zoom.radius, 2025);
    zoom(&mut cam, 1_000_000_000);
    assert_eq!(cam.zoom.radius, 1500);
}

#[test]
fn controller_look_turns_and_clamps_pitch() {
    let mut cam = CameraController::default();
    let r = update_camera_controller(&mut cam, false, (10_000, 20_000));
    assert!(r.rotated);
    assert_eq!(r.translation, None);
    // 10 px at 0.5 degree per pixel: yaw -5 degrees, pitch -10 degrees
    assert_eq!(cam.rotation, (-10_000, 355_000));
    assert_eq!(cam.rotation_copy, Some((-10_000, 355_000)));
    update_camera_controller(&mut cam, false, (0, 1_000_000));
    assert_eq!(cam.rotation.0, -88_000);
}

#[test]
fn controller_look_without_motion_does_nothing() {
    let mut cam = CameraController::default();
    let r = update_camera_controller(&mut cam, false, (0, 0));
    assert!(!r.rotated);
    assert_eq!(cam.rotation, (0, 0));
    assert_eq!(cam.rotation_copy, None);
}

#[test]
fn controller_free_look_restores_rotation() {
    let mut cam = CameraController::default();
    update_camera_controller(&mut cam, false, (10_000, 0));
    free_look(&mut cam, true);
    assert!(cam.is_free_looking);
    update_camera_controller(&mut cam, false, (20_000, 0));
    assert_eq!(cam.rotation.1, 345_000);
    assert_eq!(cam.rotation_copy, Some((0, 355_000)));
    free_look(&mut cam, false);
    let r = update_camera_controller(&mut cam, true, (0, 0));
    assert!(!r.rotated);
    assert_eq!(cam.rotation, (0, 355_000));
}

#[test]
fn controller_third_person_places_camera_behind() {
    let mut cam = CameraController::default();
    assert_eq!(update_camera_perspective(&mut cam, true), Some((0, 5500, 5000)));
    assert!(!cam.is_first_person);
    let r = update_camera_controller(&mut cam, false, (1000, 0));
    assert_eq!(r.translation, Some((0, 5500, 7250)));
    assert_eq!(update_camera_perspective(&mut cam, false), None);
    assert_eq!(update_camera_perspective(&mut cam, true), Some((0, 0, 0)));
    assert!(cam.is_first_person);
}

#[test]
fn movement_keys_build_request() {
    let player = Player::default();
    let mut input = PlayerControllerState::default();
    assert_eq!(input.sprint_speed, 0);
    let mut keys = no_keys();
    keys.forward = true;
    keys.right = true;
    keys.sprint = true;
    let quit = input_movement(&mut input, keys, &player, (1, 2, 3));
    assert!(!quit);
    assert_eq!(input.movement, (1000, 1000));
    assert_eq!(input.sprint_speed, 2000);
    assert_eq!(input.position, (1, 2, 3));
    keys.back = true;
    keys.left = true;
    keys.main_menu = true;
    let quit = input_movement(&mut input, keys, &player, (0, 0, 0));
    assert!(quit);
    assert_eq!(input.movement, (0, 0));
    assert_eq!(input.sprint_speed, 1100);
}

#[test]
fn movement_without_sprint_uses_unit_factor() {
    let mut player = Player::default();
    player.sprint_enabled = false;
    let mut input = PlayerControllerState::default();
    let mut keys = no_keys();
    keys.back = true;
    keys.sprint = true;
    input_movement(&mut input, keys, &player, (0, 0, 0));
    assert_eq!(input.movement, (-1000, 0));
    assert_eq!(input.sprint_speed, 1000);
}

#[test]
fn facing_keeps_direction_while_free_looking() {
    let mut input = PlayerControllerState::default();
    assert_eq!(input.facing(false, (0, -1000)), (0, -1000));
    assert_eq!(input.facing(true, (1000, 0)), (0, -1000));
    assert_eq!(input.direction, (0, -1000));
}

#[test]
fn wish_combines_forward_and_right() {
    assert_eq!(movement_wish((0, -1000), (1000, 0)), (0, -1000));
    assert_eq!(movement_wish((0, -1000), (0, 1000)), (1000, 0));
    assert_eq!(movement_wish((1000, 0), (1000, 1000)), (1000, 1000));
}

#[test]
fn movement_step_applies_heading_and_gravity() {
    let mut player = Player::default();
    let t = player.apply_movement(false, Some((1000, 0)), 2000, 100);
    // speed 20 * sprint 2 along x; gravity 9.8 * 0.1 down
    assert_eq!(player.velocity, (40_000, -980, 0));
    assert_eq!(t, (4000, -98, 0));
    let t = player.apply_movement(true, None, 1000, 100);
    assert_eq!(player.velocity, (0, -980, 0));
    assert_eq!(t, (0, -98, 0));
}

#[test]
fn walking_moves_along_camera_vectors() {
    let keys = WalkKeys {
        forward: true,
        back: false,
        left: false,
        right: true,
        up: true,
        down: false,
        quit: false,
    };
    let t = player_movement(keys, (0, 0, -1000), (1000, 0, 0), 2000, 500);
    assert_eq!(t, Some((1000, 0, -1000)));
    let mut quit = keys;
    quit.quit = true;
    assert_eq!(player_movement(quit, (0, 0, -1000), (1000, 0, 0), 2000, 500), None);
}
