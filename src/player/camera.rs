//! The controller's camera: look rotation in degrees, free look, perspective.
use vstd::prelude::*;

use crate::fixed::{clamp, clamp_i128, div_floor, lemma_product_bound};
use crate::player::zoom::Zoom;

verus! {

/// A full circle, in thousandths of a degree.
pub const FULL_CIRCLE: i64 = 360_000;

/// Whether `rotation` (pitch, yaw) has its pitch within `lock` of level and
/// its yaw within one circle.
pub open spec fn rotation_ok(rotation: (i64, i64), lock: u32) -> bool {
    &&& -lock <= rotation.0 <= lock
    &&& 0 <= rotation.1 < FULL_CIRCLE
}

/// What a look update asks of the camera's transform.
#[derive(Clone, Copy)]
pub struct LookUpdate {
    /// The orientation is to be rebuilt from the new rotation.
    pub rotated: bool,
    /// The position relative to the player, in the camera's frame, when the
    /// camera is in third person.
    pub translation: Option<(i64, i64, i64)>,
}

/// The controller's camera. Angles are in thousandths of a degree; the
/// sensitivity is in thousandths of a degree per pixel.
pub struct CameraController {
    pub is_first_person: bool,
    pub is_free_looking: bool,
    /// Pitch (about the horizontal axis) and yaw (about the vertical axis).
    pub rotation: (i64, i64),
    /// The rotation to come back to when free look ends.
    pub rotation_copy: Option<(i64, i64)>,
    /// How far the pitch may go either side of level.
    pub rotation_lock: u32,
    pub sensitivity: i32,
    pub zoom: Zoom,
    pub zoom_sensitivity: i32,
}

impl CameraController {
    /// The rotation and the saved rotation are within the lock and one circle,
    /// and the zoom is well formed.
    pub open spec fn wf(&self) -> bool {
        &&& rotation_ok(self.rotation, self.rotation_lock)
        &&& match self.rotation_copy {
            Some(c) => rotation_ok(c, self.rotation_lock),
            None => true,
        }
        &&& self.zoom.wf()
    }

    /// The camera after pointer motion `motion` (in thousandths of a pixel):
    /// the yaw turns by `-motion.0 * sensitivity` within one circle, the pitch
    /// by `-motion.1 * sensitivity` clamped to the lock; the rotation is saved
    /// unless free looking.
    pub open spec fn looked(self, motion: (i32, i32)) -> CameraController {
        let yaw = (self.rotation.1 - (motion.0 * self.sensitivity) / 1000) % (FULL_CIRCLE as int);
        let pitch = clamp(
            self.rotation.0 - (motion.1 * self.sensitivity) / 1000,
            -self.rotation_lock,
            self.rotation_lock as int,
        );
        let rotation = (pitch as i64, yaw as i64);
        CameraController {
            rotation,
            rotation_copy: if self.is_free_looking {
                self.rotation_copy
            } else {
                Some(rotation)
            },
            ..self
        }
    }

    /// The third-person camera position relative to the player, in the
    /// camera's frame: 5.5 up and `5 + radius` back.
    pub open spec fn third_person_offset(self) -> (i64, i64, i64) {
        (0, 5500, (5000 + self.zoom.radius) as i64)
    }
}

/// One look update: when free look was released this frame, the saved
/// rotation comes back and nothing else happens; otherwise pointer motion
/// turns the camera (see [`CameraController::looked`]), and in third person
/// the camera is placed behind the player.
pub fn update_camera_controller(
    cam: &mut CameraController,
    free_look_released: bool,
    motion: (i32, i32),
) -> (r: LookUpdate)
    requires
        old(cam).wf(),
        free_look_released ==> old(cam).rotation_copy.is_some(),
    ensures
        final(cam).wf(),
        free_look_released ==> *final(cam) == (CameraController {
            rotation: old(cam).rotation_copy.unwrap(),
            ..*old(cam)
        }) && !r.rotated && r.translation.is_none(),
        !free_look_released && motion.0 == 0 && motion.1 == 0 ==> *final(cam) == *old(cam)
            && !r.rotated && r.translation.is_none(),
        !free_look_released && !(motion.0 == 0 && motion.1 == 0) ==> *final(cam) == old(
            cam,
        ).looked(motion) && r.rotated && r.translation == if old(cam).is_first_person {
            None
        } else {
            Some(old(cam).third_person_offset())
        },
{
    if free_look_released {
        match cam.rotation_copy {
            Some(c) => {
                cam.rotation = c;
            },
            None => {},
        }
        return LookUpdate { rotated: false, translation: None };
    }
    if motion.0 == 0 && motion.1 == 0 {
        return LookUpdate { rotated: false, translation: None };
    }
    proof {
        lemma_product_bound(motion.0 as int, cam.sensitivity as int, 0x8000_0000int, 0x8000_0000int);
        lemma_product_bound(motion.1 as int, cam.sensitivity as int, 0x8000_0000int, 0x8000_0000int);
    }
    let turn_yaw = div_floor(motion.0 as i128 * cam.sensitivity as i128, 1000);
    let turn_pitch = div_floor(motion.1 as i128 * cam.sensitivity as i128, 1000);
    proof {
        assert(-0x4000_0000_0000_0000 <= turn_yaw <= 0x4000_0000_0000_0000) by (nonlinear_arith)
            requires
                -0x4000_0000_0000_0000 <= motion.0 * cam.sensitivity <= 0x4000_0000_0000_0000,
                turn_yaw == (motion.0 * cam.sensitivity) / 1000,
        ;
        assert(-0x4000_0000_0000_0000 <= turn_pitch <= 0x4000_0000_0000_0000) by (nonlinear_arith)
            requires
                -0x4000_0000_0000_0000 <= motion.1 * cam.sensitivity <= 0x4000_0000_0000_0000,
                turn_pitch == (motion.1 * cam.sensitivity) / 1000,
        ;
    }
    let y = cam.rotation.1 as i128 - turn_yaw;
    let q = div_floor(y, FULL_CIRCLE as i128);
    proof {
        assert(y - q * 360_000 == y % 360_000 && 0 <= y % 360_000 < 360_000) by (nonlinear_arith)
            requires
                q == y / 360_000,
        ;
        assert(y - 360_000 <= q * 360_000 <= y) by (nonlinear_arith)
            requires
                q == y / 360_000,
        ;
    }
    let yaw = (y - q * FULL_CIRCLE as i128) as i64;
    let lock = cam.rotation_lock as i128;
    let pitch = clamp_i128(cam.rotation.0 as i128 - turn_pitch, -lock, lock) as i64;
    cam.rotation = (pitch, yaw);
    if !cam.is_free_looking {
        cam.rotation_copy = Some((pitch, yaw));
    }
    if cam.is_first_person {
        LookUpdate { rotated: true, translation: None }
    } else {
        LookUpdate { rotated: true, translation: Some((0, 5500, 5000 + cam.zoom.radius as i64)) }
    }
}

impl Default for CameraController {
    /// First person, not free looking, level, pitch lock 88 degrees,
    /// sensitivity 0.5, zoom between 1.5 and 3 at sensitivity 1.
    fn default() -> (r: CameraController)
        ensures
            r.wf(),
            r.is_first_person,
            !r.is_free_looking,
            r.rotation == (0i64, 0i64),
            r.rotation_copy.is_none(),
            r.rotation_lock == 88_000,
            r.sensitivity == 500,
            r.zoom == Zoom::new_spec(1500, 3000),
            r.zoom_sensitivity == 1000,
    {
        CameraController {
            is_first_person: true,
            is_free_looking: false,
            rotation: (0, 0),
            rotation_copy: None,
            rotation_lock: 88_000,
            sensitivity: 500,
            zoom: Zoom::new(1500, 3000),
            zoom_sensitivity: 1000,
        }
    }
}

} // verus!
