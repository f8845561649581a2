//! Orbiting by pointer motion: yaw about the world's vertical axis, pitch about
//! the camera's own horizontal axis, never tipping over the top or bottom.
use vstd::prelude::*;

use crate::fixed::{
    div_floor, lemma_product_bound, mul3, signed_angle, signed_turn, wrap_turn, BOUND,
    FULL_TURN, HALF_TURN, ONE, QUARTER_TURN,
};

verus! {

/// The angle, in orbit units, that a pointer motion of `delta` across a
/// viewport `extent` long turns at `sensitivity`: `delta / extent * pi *
/// sensitivity`, rounded down.
pub open spec fn angle_delta(delta: int, sensitivity: int, extent: int) -> int {
    (delta * sensitivity * HALF_TURN) / (extent * ONE)
}

/// Whether a camera pitched by `pitch` keeps its local up vector pointing
/// above the horizon, that is whether the cosine of `pitch` is positive.
pub open spec fn up_is_positive(pitch: int) -> bool {
    -QUARTER_TURN < signed_angle(pitch) < QUARTER_TURN
}

/// Camera orientation as a yaw about the world's vertical axis followed by a
/// pitch about the camera's horizontal axis, never rolled.
///
/// Angles are in orbit units: [`HALF_TURN`] stands for pi radians.
pub struct OrbitState {
    /// Rotation about the world's vertical axis, in `[0, FULL_TURN)`.
    pub yaw: i64,
    /// Rotation about the camera's horizontal axis, within a quarter turn of level.
    pub pitch: i64,
}

impl OrbitState {
    /// The yaw is reduced to one turn and the camera's up vector points above
    /// the horizon.
    pub open spec fn wf(&self) -> bool {
        &&& 0 <= self.yaw < FULL_TURN
        &&& -QUARTER_TURN < self.pitch < QUARTER_TURN
    }

    /// The orientation after a pointer motion of `delta`: the yaw turns by the
    /// horizontal angle; the pitch turns by the vertical angle only if the
    /// camera's up vector then still points above the horizon.
    pub open spec fn moved(
        self,
        delta: (int, int),
        sensitivity: (int, int),
        viewport: (int, int),
    ) -> OrbitState {
        if delta.0 == 0 && delta.1 == 0 {
            self
        } else {
            let pitch = self.pitch - angle_delta(delta.1, sensitivity.1, viewport.1);
            OrbitState {
                yaw: ((self.yaw - angle_delta(delta.0, sensitivity.0, viewport.0)) % (
                FULL_TURN as int)) as i64,
                pitch: if up_is_positive(pitch) {
                    signed_angle(pitch) as i64
                } else {
                    self.pitch
                },
            }
        }
    }

    /// An orientation of `yaw` then `pitch`, the yaw reduced to one turn.
    pub fn new(yaw: i64, pitch: i64) -> (r: OrbitState)
        requires
            -QUARTER_TURN < pitch < QUARTER_TURN,
        ensures
            r.wf(),
            r.yaw == (yaw as int) % (FULL_TURN as int),
            r.pitch == pitch,
    {
        OrbitState { yaw: wrap_turn(yaw as i128), pitch }
    }

    /// Whether pointer motion drives the orbit: only while the cursor is locked.
    pub fn is_gated(cursor_locked: bool) -> (r: bool)
        ensures
            r == cursor_locked,
    {
        cursor_locked
    }

    /// The angle turned by a pointer motion of `delta` across `extent`.
    fn turn(delta: i32, sensitivity: i32, extent: u32) -> (r: i128)
        requires
            extent > 0,
        ensures
            r == angle_delta(delta as int, sensitivity as int, extent as int),
            -0x1000_0000_0000_0000_0000_0000 <= r <= 0x1000_0000_0000_0000_0000_0000,
    {
        proof {
            lemma_product_bound(delta as int, sensitivity as int, 0x8000_0000int, 0x8000_0000int);
            lemma_product_bound(
                delta * sensitivity,
                HALF_TURN as int,
                0x4000_0000_0000_0000int,
                0x4000_0000int,
            );
        }
        let n = mul3(delta as i64, sensitivity as i64, HALF_TURN);
        let d: i128 = extent as i128 * 1000;
        let r = div_floor(n, d);
        proof {
            assert(-0x1000_0000_0000_0000_0000_0000 <= r <= 0x1000_0000_0000_0000_0000_0000)
                by (nonlinear_arith)
                requires
                    -0x1000_0000_0000_0000_0000_0000 <= n <= 0x1000_0000_0000_0000_0000_0000,
                    d >= 1,
                    r == n / d,
            ;
        }
        r
    }

    /// Turns the camera by a pointer motion of `delta` (in thousandths of a
    /// pixel) over a viewport of `viewport_size`: yaw by `delta.0 /
    /// viewport_size.0 * pi * sensitivity.0` about the world's vertical axis,
    /// pitch likewise about the camera's horizontal axis. A pitch that would
    /// tip the camera's up vector to or below the horizon is dropped for this
    /// motion while the yaw still applies. No motion, no change.
    pub fn apply_motion(
        &mut self,
        delta: (i32, i32),
        sensitivity: (i32, i32),
        viewport_size: (u32, u32),
    )
        requires
            old(self).wf(),
            viewport_size.0 > 0,
            viewport_size.1 > 0,
        ensures
            final(self).wf(),
            *final(self) == old(self).moved(
                (delta.0 as int, delta.1 as int),
                (sensitivity.0 as int, sensitivity.1 as int),
                (viewport_size.0 as int, viewport_size.1 as int),
            ),
            delta.0 == 0 && delta.1 == 0 ==> *final(self) == *old(self),
            !(delta.0 == 0 && delta.1 == 0) && !up_is_positive(
                old(self).pitch - angle_delta(
                    delta.1 as int,
                    sensitivity.1 as int,
                    viewport_size.1 as int,
                ),
            ) ==> final(self).pitch == old(self).pitch && final(self).yaw == (old(self).yaw
                - angle_delta(delta.0 as int, sensitivity.0 as int, viewport_size.0 as int)) % (
            FULL_TURN as int),
    {
        if delta.0 == 0 && delta.1 == 0 {
            return;
        }
        let yaw_turn = Self::turn(delta.0, sensitivity.0, viewport_size.0);
        let pitch_turn = Self::turn(delta.1, sensitivity.1, viewport_size.1);
        self.yaw = wrap_turn(self.yaw as i128 - yaw_turn);
        let pitch = signed_turn(self.pitch as i128 - pitch_turn);
        if -QUARTER_TURN < pitch && pitch < QUARTER_TURN {
            self.pitch = pitch;
        }
    }
}

} // verus!
