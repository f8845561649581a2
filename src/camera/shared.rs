//! Aiming, cursor locking and following the target.
use vstd::prelude::*;

use crate::camera::offset::{toggle_x_offset, toggle_x_offset_condition};
use crate::camera::PlayerCamera;

verus! {

/// Whether the aim system runs: aiming is enabled.
pub fn aim_condition(cam: &PlayerCamera) -> (r: bool)
    ensures
        r == cam.aim_enabled,
{
    cam.aim_enabled
}

/// One frame of the aim zoom lasting `dt`, aiming while `aim_held`. Returns
/// whether the target is to turn to face where the camera looks.
pub fn aim(cam: &mut PlayerCamera, aim_held: bool, dt: u32) -> (r: bool)
    requires
        old(cam).wf(),
    ensures
        final(cam).wf(),
        *final(cam) == old(cam).aimed(aim_held, dt),
        r == aim_held,
{
    cam.zoom.apply_aim(aim_held, cam.aim_zoom, cam.aim_speed, dt);
    aim_held
}

/// Whether the cursor-lock key is listened to.
pub fn toggle_cursor_condition(cam: &PlayerCamera) -> (r: bool)
    ensures
        r == cam.cursor_lock_toggle_enabled,
{
    cam.cursor_lock_toggle_enabled
}

/// Flips the cursor lock when its key went down this frame; returns whether
/// the cursor is now to be locked and hidden.
pub fn toggle_cursor(cam: &mut PlayerCamera, lock_key_pressed: bool) -> (r: bool)
    ensures
        *final(cam) == old(cam).cursor_toggled(lock_key_pressed),
        r == final(cam).cursor_lock_active,
{
    if lock_key_pressed {
        cam.cursor_lock_active = !cam.cursor_lock_active;
    }
    cam.cursor_lock_active
}

/// The camera position relative to the target, in the camera's own frame:
/// rotated by the camera orientation and added to the target's position it
/// gives the camera's position.
pub fn sync_player_camera(cam: &PlayerCamera) -> (r: (i64, i64, i64))
    ensures
        r == cam.local_offset(),
{
    if cam.offset_enabled {
        (cam.offset.offset.0 as i64, cam.offset.offset.1 as i64, cam.zoom.radius)
    } else {
        (0, 0, cam.zoom.radius)
    }
}

/// What one frame of the shared systems hands back to the engine.
#[derive(Clone, Copy)]
pub struct SharedFrame {
    /// Whether the target is to turn to face where the camera looks.
    pub face_target: bool,
    /// How the cursor is to be held (locked and hidden when `true`), when the
    /// cursor system ran.
    pub cursor_locked: Option<bool>,
    /// The camera position relative to the target, in the camera's frame.
    pub local_offset: (i64, i64, i64),
}

/// The systems that every variant of the rig shares: aiming, the shoulder
/// swap, the cursor lock and following the target, each run only when its
/// condition holds.
pub struct SharedPlugin;

impl SharedPlugin {
    /// One frame of the shared systems lasting `dt`: aiming while `aim_held`
    /// (when aiming is enabled), the shoulder swap reversed by
    /// `offset_toggle_pressed` (when the swap is enabled), the cursor lock
    /// flipped by `lock_key_pressed` (when its key is enabled), and then the
    /// camera placed behind the target.
    pub fn run(
        &self,
        cam: &mut PlayerCamera,
        aim_held: bool,
        offset_toggle_pressed: bool,
        lock_key_pressed: bool,
        dt: u32,
    ) -> (r: SharedFrame)
        requires
            old(cam).wf(),
        ensures
            final(cam).wf(),
            ({
                let c1 = if old(cam).aim_enabled {
                    old(cam).aimed(aim_held, dt)
                } else {
                    *old(cam)
                };
                let c2 = if c1.offset_toggle_enabled {
                    c1.offset_ticked(offset_toggle_pressed, dt)
                } else {
                    c1
                };
                let c3 = if c2.cursor_lock_toggle_enabled {
                    c2.cursor_toggled(lock_key_pressed)
                } else {
                    c2
                };
                *final(cam) == c3
            }),
            r.face_target == (old(cam).aim_enabled && aim_held),
            r.cursor_locked == if old(cam).cursor_lock_toggle_enabled {
                Some(final(cam).cursor_lock_active)
            } else {
                None
            },
            r.local_offset == final(cam).local_offset(),
    {
        let face_target = if aim_condition(cam) {
            aim(cam, aim_held, dt)
        } else {
            false
        };
        if toggle_x_offset_condition(cam) {
            toggle_x_offset(cam, offset_toggle_pressed, dt);
        }
        let cursor_locked = if toggle_cursor_condition(cam) {
            Some(toggle_cursor(cam, lock_key_pressed))
        } else {
            None
        };
        SharedFrame { face_target, cursor_locked, local_offset: sync_player_camera(cam) }
    }
}

} // verus!
