//! Reading movement keys into a movement request, and the camera perspective
//! and free-look switches.
use vstd::prelude::*;

use crate::fixed::div_floor;
use crate::player::camera::CameraController;
use crate::player::Player;

verus! {

/// The movement keys held this frame.
#[derive(Clone, Copy)]
pub struct MovementKeys {
    pub forward: bool,
    pub back: bool,
    pub left: bool,
    pub right: bool,
    pub sprint: bool,
    pub jump: bool,
    pub main_menu: bool,
}

/// The movement request built from the keys, read by the movement step.
/// Movement and directions are in thousandths; the sprint factor too.
pub struct PlayerControllerState {
    /// Forward (positive) or back, and right (positive) or left.
    pub movement: (i32, i32),
    /// The player's position, in thousandths of a unit.
    pub position: (i64, i64, i64),
    pub sprint_speed: u32,
    /// The last forward direction on the ground plane.
    pub direction: (i32, i32),
}

/// `1000` when `b` holds, else `0`.
pub open spec fn unit_if(b: bool) -> int {
    if b {
        1000
    } else {
        0
    }
}

/// The sprint factor for `keys`: the backward factor when sprinting back, else
/// the forward factor when sprinting forward, else 1; sprinting needs the
/// player to allow it.
pub open spec fn sprint_factor(keys: MovementKeys, player: Player) -> u32 {
    let sprinting = keys.sprint && player.sprint_enabled;
    if keys.back && sprinting {
        player.backward_sprint_speed
    } else if keys.forward && sprinting {
        player.forward_sprint_speed
    } else {
        1000
    }
}

impl Default for PlayerControllerState {
    /// No movement, at the origin, sprint factor 0, no direction.
    fn default() -> (r: PlayerControllerState)
        ensures
            r.movement == (0i32, 0i32),
            r.position == (0i64, 0i64, 0i64),
            r.sprint_speed == 0,
            r.direction == (0i32, 0i32),
    {
        PlayerControllerState {
            movement: (0, 0),
            position: (0, 0, 0),
            sprint_speed: 0,
            direction: (0, 0),
        }
    }
}

impl PlayerControllerState {
    /// The forward direction for this step: the one kept from before while
    /// free looking, else `camera_forward`, which is kept.
    pub fn facing(&mut self, is_free_looking: bool, camera_forward: (i32, i32)) -> (r: (i32, i32))
        ensures
            is_free_looking ==> r == old(self).direction && *final(self) == *old(self),
            !is_free_looking ==> r == camera_forward && *final(self) == (PlayerControllerState {
                direction: camera_forward,
                ..*old(self)
            }),
    {
        if is_free_looking {
            self.direction
        } else {
            self.direction = camera_forward;
            camera_forward
        }
    }
}

/// Reads the movement keys: the request is cleared, then forward and back add
/// and take one forward unit, right and left one sideways unit, and the
/// sprint factor follows [`sprint_factor`]; the player's position is noted.
/// Returns whether the main-menu key asks to quit.
pub fn input_movement(
    input: &mut PlayerControllerState,
    keys: MovementKeys,
    player: &Player,
    position: (i64, i64, i64),
) -> (r: bool)
    ensures
        final(input).position == position,
        final(input).movement.0 == unit_if(keys.forward) - unit_if(keys.back),
        final(input).movement.1 == unit_if(keys.right) - unit_if(keys.left),
        final(input).sprint_speed == sprint_factor(keys, *player),
        final(input).direction == old(input).direction,
        r == keys.main_menu,
{
    input.position = position;
    input.movement = (0, 0);
    input.sprint_speed = 1000;
    if keys.forward {
        if keys.sprint && player.sprint_enabled {
            input.sprint_speed = player.forward_sprint_speed;
        }
        input.movement.0 = input.movement.0 + 1000;
    }
    if keys.back {
        if keys.sprint && player.sprint_enabled {
            input.sprint_speed = player.backward_sprint_speed;
        }
        input.movement.0 = input.movement.0 - 1000;
    }
    if keys.left {
        input.movement.1 = input.movement.1 - 1000;
    }
    if keys.right {
        input.movement.1 = input.movement.1 + 1000;
    }
    keys.main_menu
}

/// The wished movement on the ground plane: `forward * movement.0 + right *
/// movement.1`, where `right` is `forward` turned a quarter turn, in
/// thousandths, rounded down. The movement step heads along it once
/// normalised.
pub fn movement_wish(forward: (i32, i32), movement: (i32, i32)) -> (r: (i64, i64))
    ensures
        r.0 == (forward.0 * movement.0 - forward.1 * movement.1) / 1000,
        r.1 == (forward.1 * movement.0 + forward.0 * movement.1) / 1000,
{
    proof {
        crate::fixed::lemma_product_bound(forward.0 as int, movement.0 as int, 0x8000_0000int, 0x8000_0000int);
        crate::fixed::lemma_product_bound(forward.1 as int, movement.1 as int, 0x8000_0000int, 0x8000_0000int);
        crate::fixed::lemma_product_bound(forward.1 as int, movement.0 as int, 0x8000_0000int, 0x8000_0000int);
        crate::fixed::lemma_product_bound(forward.0 as int, movement.1 as int, 0x8000_0000int, 0x8000_0000int);
    }
    let x = div_floor(
        forward.0 as i128 * movement.0 as i128 - forward.1 as i128 * movement.1 as i128,
        1000,
    );
    let z = div_floor(
        forward.1 as i128 * movement.0 as i128 + forward.0 as i128 * movement.1 as i128,
        1000,
    );
    proof {
        assert(-0x8000_0000_0000_0000 <= x <= 0x7fff_ffff_ffff_ffff) by (nonlinear_arith)
            requires
                -0x8000_0000_0000_0000 <= forward.0 * movement.0 - forward.1 * movement.1 <= 0x8000_0000_0000_0000,
                x == (forward.0 * movement.0 - forward.1 * movement.1) / 1000,
        ;
        assert(-0x8000_0000_0000_0000 <= z <= 0x7fff_ffff_ffff_ffff) by (nonlinear_arith)
            requires
                -0x8000_0000_0000_0000 <= forward.1 * movement.0 + forward.0 * movement.1 <= 0x8000_0000_0000_0000,
                z == (forward.1 * movement.0 + forward.0 * movement.1) / 1000,
        ;
    }
    (x as i64, z as i64)
}

/// Switches between first and third person when the perspective key went down
/// this frame. Returns the camera position to set relative to the player: 5.5
/// up and 5 back in third person, the player's own place in first person.
pub fn update_camera_perspective(cam: &mut CameraController, pressed: bool) -> (r: Option<(i64, i64, i64)>)
    ensures
        !pressed ==> *final(cam) == *old(cam) && r.is_none(),
        pressed ==> *final(cam) == (CameraController {
            is_first_person: !old(cam).is_first_person,
            ..*old(cam)
        }),
        pressed && old(cam).is_first_person ==> r == Some((0i64, 5500i64, 5000i64)),
        pressed && !old(cam).is_first_person ==> r == Some((0i64, 0i64, 0i64)),
{
    if !pressed {
        return None;
    }
    if cam.is_first_person {
        cam.is_first_person = false;
        Some((0, 5500, 5000))
    } else {
        cam.is_first_person = true;
        Some((0, 0, 0))
    }
}

/// Free look lasts exactly as long as its key is held.
pub fn free_look(cam: &mut CameraController, held: bool)
    ensures
        *final(cam) == (CameraController { is_free_looking: held, ..*old(cam) }),
{
    cam.is_free_looking = held;
}

} // verus!
