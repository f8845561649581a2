//! The third-person camera rig: orbit, zoom, shoulder offset, aim and cursor
//! lock, stepped once per frame from plain input values.
pub mod mouse;
pub mod offset;
pub mod orbit;
pub mod shared;
pub mod zoom;

use vstd::prelude::*;

use self::offset::Offset;
use self::orbit::OrbitState;
use self::zoom::Zoom;

verus! {

/// What the engine saw during one frame, as plain values.
#[derive(Clone, Copy)]
pub struct FrameInput {
    /// Frame duration, in thousandths of a second.
    pub dt: u32,
    /// Pointer motion, in thousandths of a pixel.
    pub pointer_delta: (i32, i32),
    /// Scroll-wheel motion, in thousandths of a line.
    pub scroll: i32,
    /// Viewport width and height, in thousandths of a pixel.
    pub viewport_size: (u32, u32),
    /// The cursor-lock key went down this frame.
    pub cursor_lock_pressed: bool,
    /// The offset-toggle key went down this frame.
    pub offset_toggle_pressed: bool,
    /// The aim button is held.
    pub aim_held: bool,
    /// The orbit button is held.
    pub orbit_button_held: bool,
}

/// What one frame of the rig hands back to the engine.
#[derive(Clone, Copy)]
pub struct CameraFrame {
    /// Camera yaw, in orbit units.
    pub yaw: i64,
    /// Camera pitch, in orbit units.
    pub pitch: i64,
    /// Camera position relative to the target, in the camera's own frame
    /// (to be rotated by the camera orientation), in thousandths of a unit.
    pub local_offset: (i64, i64, i64),
    /// Whether the cursor is to be locked and hidden.
    pub cursor_locked: bool,
    /// Whether the target is to turn to face where the camera looks.
    pub face_target: bool,
}

/// The camera rig: its settings and the state of its orbit, zoom and offset.
///
/// Speeds, factors and sensitivities are in thousandths.
pub struct PlayerCamera {
    pub is_first_person: bool,
    pub aim_enabled: bool,
    pub aim_speed: u32,
    /// The fraction of `zoom.min` that aiming pulls the radius to.
    pub aim_zoom: u32,
    pub cursor_lock_toggle_enabled: bool,
    pub cursor_lock_active: bool,
    pub sensitivity: (i32, i32),
    pub mouse_orbit_button_enabled: bool,
    pub offset_enabled: bool,
    pub offset: Offset,
    pub offset_toggle_enabled: bool,
    pub offset_toggle_speed: u32,
    pub zoom_enabled: bool,
    pub zoom: Zoom,
    pub zoom_sensitivity: i32,
    pub orbit: OrbitState,
}

impl PlayerCamera {
    /// The parts are well formed and the aim zoom factor is positive.
    pub open spec fn wf(&self) -> bool {
        &&& self.zoom.wf()
        &&& self.offset.wf()
        &&& self.orbit.wf()
        &&& self.aim_zoom > 0
    }

    /// The rig with the cursor lock flipped when `pressed`.
    pub open spec fn cursor_toggled(self, pressed: bool) -> PlayerCamera {
        if pressed {
            PlayerCamera { cursor_lock_active: !self.cursor_lock_active, ..self }
        } else {
            self
        }
    }

    /// The rig after pointer motion `delta`: unchanged when the orbit button is
    /// required and not held, else orbited.
    pub open spec fn orbited(self, delta: (i32, i32), button_held: bool, viewport: (u32, u32)) -> PlayerCamera {
        if self.mouse_orbit_button_enabled && !button_held {
            self
        } else {
            PlayerCamera {
                orbit: self.orbit.moved(
                    (delta.0 as int, delta.1 as int),
                    (self.sensitivity.0 as int, self.sensitivity.1 as int),
                    (viewport.0 as int, viewport.1 as int),
                ),
                ..self
            }
        }
    }

    /// The rig after a scroll of `scroll` at its zoom sensitivity.
    pub open spec fn scrolled(self, scroll: i32) -> PlayerCamera {
        PlayerCamera { zoom: self.zoom.scrolled(scroll as int, self.zoom_sensitivity as int), ..self }
    }

    /// The rig after one frame of aiming (or not) lasting `dt`.
    pub open spec fn aimed(self, aiming: bool, dt: u32) -> PlayerCamera {
        PlayerCamera {
            zoom: self.zoom.aimed(aiming, self.aim_zoom as int, self.aim_speed as int, dt as int),
            ..self
        }
    }

    /// The rig after one offset frame lasting `dt`, its direction first
    /// reversed when `pressed`.
    pub open spec fn offset_ticked(self, pressed: bool, dt: u32) -> PlayerCamera {
        let o = if pressed {
            self.offset.toggled()
        } else {
            self.offset
        };
        PlayerCamera { offset: o.ticked(dt as int, self.offset_toggle_speed as int), ..self }
    }

    /// The camera position relative to the target in the camera's frame: the
    /// shoulder offset when enabled, and the radius along the backward axis.
    pub open spec fn local_offset(self) -> (i64, i64, i64) {
        if self.offset_enabled {
            (self.offset.offset.0 as i64, self.offset.offset.1 as i64, self.zoom.radius)
        } else {
            (0, 0, self.zoom.radius)
        }
    }

    /// The rig after one frame of `input`: the cursor lock flips on its key
    /// (when that is enabled); while the cursor is locked the pointer orbits
    /// and the wheel zooms (when zoom is enabled); the offset key reverses the
    /// shoulder swap and, when enabled, the swap advances; then the aim zoom
    /// advances, aiming while the aim button is held and aiming is enabled.
    pub open spec fn stepped(self, input: FrameInput) -> PlayerCamera {
        let c1 = if self.cursor_lock_toggle_enabled {
            self.cursor_toggled(input.cursor_lock_pressed)
        } else {
            self
        };
        let c2 = if c1.cursor_lock_active {
            let o = c1.orbited(input.pointer_delta, input.orbit_button_held, input.viewport_size);
            if o.zoom_enabled {
                o.scrolled(input.scroll)
            } else {
                o
            }
        } else {
            c1
        };
        let o3 = if input.offset_toggle_pressed {
            c2.offset.toggled()
        } else {
            c2.offset
        };
        let c3 = PlayerCamera {
            offset: if c2.offset_toggle_enabled {
                o3.ticked(input.dt as int, c2.offset_toggle_speed as int)
            } else {
                o3
            },
            ..c2
        };
        c3.aimed(input.aim_held && c3.aim_enabled, input.dt)
    }

    /// Advances the rig by one frame of `input` and returns where the camera
    /// stands relative to the target and how the engine is to treat the
    /// cursor and the target.
    pub fn update(&mut self, input: &FrameInput) -> (r: CameraFrame)
        requires
            old(self).wf(),
            input.viewport_size.0 > 0,
            input.viewport_size.1 > 0,
        ensures
            final(self).wf(),
            *final(self) == old(self).stepped(*input),
            r.yaw == final(self).orbit.yaw,
            r.pitch == final(self).orbit.pitch,
            r.local_offset == final(self).local_offset(),
            r.cursor_locked == final(self).cursor_lock_active,
            r.face_target == (input.aim_held && old(self).aim_enabled),
    {
        if self.cursor_lock_toggle_enabled && input.cursor_lock_pressed {
            self.cursor_lock_active = !self.cursor_lock_active;
        }
        if self.cursor_lock_active {
            if !(self.mouse_orbit_button_enabled && !input.orbit_button_held) {
                self.orbit.apply_motion(input.pointer_delta, self.sensitivity, input.viewport_size);
            }
            if self.zoom_enabled {
                self.zoom.apply_scroll(input.scroll, self.zoom_sensitivity);
            }
        }
        if input.offset_toggle_pressed {
            self.offset.toggle();
        }
        if self.offset_toggle_enabled {
            self.offset.tick(input.dt, self.offset_toggle_speed);
        }
        let aiming = input.aim_held && self.aim_enabled;
        self.zoom.apply_aim(aiming, self.aim_zoom, self.aim_speed, input.dt);
        CameraFrame {
            yaw: self.orbit.yaw,
            pitch: self.orbit.pitch,
            local_offset: shared::sync_player_camera(self),
            cursor_locked: self.cursor_lock_active,
            face_target: aiming,
        }
    }
}

impl Default for PlayerCamera {
    /// Aiming off (factor 0.7, speed 3), cursor lock on and toggleable,
    /// sensitivity 1, no orbit button, offset (0.5, 0.4) off and not
    /// toggleable (speed 5), zoom on between 1.5 and 3 at sensitivity 1, level
    /// orientation.
    fn default() -> (r: PlayerCamera)
        ensures
            r.wf(),
            !r.is_first_person,
            !r.aim_enabled,
            r.aim_speed == 3000,
            r.aim_zoom == 700,
            r.cursor_lock_toggle_enabled,
            r.cursor_lock_active,
            r.sensitivity == (1000i32, 1000i32),
            !r.mouse_orbit_button_enabled,
            !r.offset_enabled,
            r.offset == Offset::new_spec(500, 400),
            !r.offset_toggle_enabled,
            r.offset_toggle_speed == 5000,
            r.zoom_enabled,
            r.zoom == Zoom::new_spec(1500, 3000),
            r.zoom_sensitivity == 1000,
            r.orbit == (OrbitState { yaw: 0, pitch: 0 }),
    {
        PlayerCamera {
            is_first_person: false,
            aim_enabled: false,
            aim_speed: 3000,
            aim_zoom: 700,
            cursor_lock_toggle_enabled: true,
            cursor_lock_active: true,
            sensitivity: (1000, 1000),
            mouse_orbit_button_enabled: false,
            offset_enabled: false,
            offset: Offset::new(500, 400),
            offset_toggle_enabled: false,
            offset_toggle_speed: 5000,
            zoom_enabled: true,
            zoom: Zoom::new(1500, 3000),
            zoom_sensitivity: 1000,
            orbit: OrbitState::new(0, 0),
        }
    }
}

} // verus!
