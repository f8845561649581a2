//! Pointer orbiting and wheel zoom of the camera rig.
use vstd::prelude::*;

use crate::camera::PlayerCamera;

verus! {

/// Whether pointer motion orbits the camera: only while the cursor is locked.
pub fn orbit_condition(cam: &PlayerCamera) -> (r: bool)
    ensures
        r == cam.cursor_lock_active,
{
    cam.cursor_lock_active
}

/// Orbits the camera by the pointer motion `motion` (thousandths of a pixel)
/// over a viewport of `viewport_size`, unless an orbit button is required and
/// `orbit_button_held` is false.
pub fn orbit_mouse(
    cam: &mut PlayerCamera,
    motion: (i32, i32),
    orbit_button_held: bool,
    viewport_size: (u32, u32),
)
    requires
        old(cam).wf(),
        viewport_size.0 > 0,
        viewport_size.1 > 0,
    ensures
        final(cam).wf(),
        *final(cam) == old(cam).orbited(motion, orbit_button_held, viewport_size),
{
    if cam.mouse_orbit_button_enabled && !orbit_button_held {
        return;
    }
    cam.orbit.apply_motion(motion, cam.sensitivity, viewport_size);
}

/// Whether the wheel zooms: zoom is enabled and the cursor is locked.
pub fn zoom_condition(cam: &PlayerCamera) -> (r: bool)
    ensures
        r == (cam.zoom_enabled && cam.cursor_lock_active),
{
    cam.zoom_enabled && cam.cursor_lock_active
}

/// Zooms by the wheel motion `scroll` (thousandths of a line) gathered this
/// frame; no motion, no change.
pub fn zoom_mouse(cam: &mut PlayerCamera, scroll: i32)
    requires
        old(cam).wf(),
    ensures
        final(cam).wf(),
        *final(cam) == old(cam).scrolled(scroll),
{
    cam.zoom.apply_scroll(scroll, cam.zoom_sensitivity);
}

} // verus!
