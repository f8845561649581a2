//! The shoulder offset: a sideways swap animated between `-max` and `max`.
use vstd::prelude::*;

use crate::camera::PlayerCamera;
use crate::fixed::{clamp, clamp_i128, mul_wide, ONE};

verus! {

/// How far the horizontal offset moves in one frame lasting `dt` at
/// `toggle_speed`: `toggle_speed * dt`, rounded down.
pub open spec fn offset_step(toggle_speed: int, dt: int) -> int {
    (toggle_speed * dt) / (ONE as int)
}

/// Offset of the camera from behind the target. An offset of (0.5, 0.25) puts
/// the camera nearer the target's right shoulder.
///
/// Lengths are in thousandths of a unit.
pub struct Offset {
    /// The current horizontal and vertical offset.
    pub offset: (i32, i32),
    /// The offset given at construction; its horizontal part bounds the
    /// horizontal offset on both sides.
    pub offset_copy: (i32, i32),
    /// Set while the horizontal offset moves towards `-offset_copy.0`.
    pub is_transitioning: bool,
}

impl Offset {
    /// The horizontal bound is non-negative and the horizontal offset lies
    /// within `[-bound, bound]`.
    pub open spec fn wf(&self) -> bool {
        &&& 0 <= self.offset_copy.0
        &&& -self.offset_copy.0 <= self.offset.0 <= self.offset_copy.0
    }

    /// The offset with its direction of travel reversed.
    pub open spec fn toggled(self) -> Offset {
        Offset { is_transitioning: !self.is_transitioning, ..self }
    }

    /// The offset after one frame lasting `dt` at `toggle_speed`: the
    /// horizontal part moves by the step in the current direction and is
    /// clamped to `[-offset_copy.0, offset_copy.0]`.
    pub open spec fn ticked(self, dt: int, toggle_speed: int) -> Offset {
        let step = offset_step(toggle_speed, dt);
        let moved = if self.is_transitioning {
            self.offset.0 - step
        } else {
            self.offset.0 + step
        };
        Offset {
            offset: (
                clamp(moved, -self.offset_copy.0, self.offset_copy.0 as int) as i32,
                self.offset.1,
            ),
            ..self
        }
    }

    /// An offset of `(x, y)`, at rest towards `x`.
    pub open spec fn new_spec(x: i32, y: i32) -> Offset {
        Offset { offset: (x, y), offset_copy: (x, y), is_transitioning: false }
    }

    /// An offset of `(x, y)`, with `x` also the horizontal bound.
    pub fn new(x: i32, y: i32) -> (r: Offset)
        requires
            0 <= x,
        ensures
            r.wf(),
            r == Offset::new_spec(x, y),
            r.offset == (x, y),
            r.offset_copy == (x, y),
            !r.is_transitioning,
    {
        Offset { offset: (x, y), offset_copy: (x, y), is_transitioning: false }
    }

    /// Reverses the direction in which the horizontal offset travels.
    pub fn toggle(&mut self)
        ensures
            *final(self) == old(self).toggled(),
    {
        self.is_transitioning = !self.is_transitioning;
    }

    /// Moves the horizontal offset by `toggle_speed * dt` towards
    /// `-offset_copy.0` while transitioning, towards `offset_copy.0` otherwise,
    /// never past either.
    pub fn tick(&mut self, dt: u32, toggle_speed: u32)
        requires
            old(self).wf(),
        ensures
            final(self).wf(),
            *final(self) == old(self).ticked(dt as int, toggle_speed as int),
            -final(self).offset_copy.0 <= final(self).offset.0 <= final(self).offset_copy.0,
    {
        let product = mul_wide(toggle_speed as i64, dt as i64);
        let step = product / 1000;
        proof {
            assert(0 <= toggle_speed * dt <= 0x1_0000_0000 * 0x1_0000_0000) by (nonlinear_arith)
                requires
                    0 <= toggle_speed <= 0xffff_ffff,
                    0 <= dt <= 0xffff_ffff,
            ;
        }
        let x = self.offset.0 as i128;
        let moved = if self.is_transitioning {
            x - step
        } else {
            x + step
        };
        let bound = self.offset_copy.0 as i128;
        self.offset.0 = clamp_i128(moved, -bound, bound) as i32;
    }
}

/// The offset after a run of frames, each a `(toggle_pressed, dt,
/// toggle_speed)`: a pressed toggle reverses the direction, then the frame
/// ticks.
pub open spec fn run(o: Offset, frames: Seq<(bool, u32, u32)>) -> Offset
    decreases frames.len(),
{
    if frames.len() == 0 {
        o
    } else {
        let f = frames[0];
        let t = if f.0 {
            o.toggled()
        } else {
            o
        };
        run(t.ticked(f.1 as int, f.2 as int), frames.drop_first())
    }
}

/// However the swap is toggled and ticked, the horizontal offset never leaves
/// `[-offset_copy.0, offset_copy.0]`, and that bound never changes.
pub proof fn lemma_offset_stays_bounded(o: Offset, frames: Seq<(bool, u32, u32)>)
    requires
        o.wf(),
    ensures
        run(o, frames).wf(),
        run(o, frames).offset_copy == o.offset_copy,
        -o.offset_copy.0 <= run(o, frames).offset.0 <= o.offset_copy.0,
    decreases frames.len(),
{
    if frames.len() > 0 {
        let f = frames[0];
        let t = if f.0 {
            o.toggled()
        } else {
            o
        };
        lemma_offset_stays_bounded(t.ticked(f.1 as int, f.2 as int), frames.drop_first());
    }
}

/// Whether the shoulder swap runs at all.
pub fn toggle_x_offset_condition(cam: &PlayerCamera) -> (r: bool)
    ensures
        r == cam.offset_toggle_enabled,
{
    cam.offset_toggle_enabled
}

/// One frame of the shoulder swap: reverses its direction when the toggle key
/// went down this frame, then moves the horizontal offset for `dt`.
pub fn toggle_x_offset(cam: &mut PlayerCamera, toggle_pressed: bool, dt: u32)
    requires
        old(cam).wf(),
    ensures
        final(cam).wf(),
        *final(cam) == old(cam).offset_ticked(toggle_pressed, dt),
{
    if toggle_pressed {
        cam.offset.toggle();
    }
    cam.offset.tick(dt, cam.offset_toggle_speed);
}

} // verus!
