//! The orbit radius: bounded by scrolling, pulled in while aiming.
use vstd::prelude::*;

use crate::fixed::{clamp, clamp_i128, div_floor, lemma_product_bound, mul3, BOUND, ONE};

verus! {

/// The radius after scrolling by `scroll` with `sensitivity`, before clamping:
/// `radius - scroll * radius * 0.1 * sensitivity`, rounded down.
pub open spec fn scrolled_radius(radius: int, scroll: int, sensitivity: int) -> int {
    radius - (scroll * radius * sensitivity) / (10 * ONE * ONE)
}

/// The radius that aiming pulls towards: `min * aim_zoom_factor`, rounded down.
pub open spec fn aim_target(min: int, aim_zoom_factor: int) -> int {
    (min * aim_zoom_factor) / (ONE as int)
}

/// How far the radius moves in one aiming frame:
/// `(pre_aim / aim_zoom_factor) * aim_speed * dt`, rounded down.
pub open spec fn aim_step(pre_aim: int, aim_zoom_factor: int, aim_speed: int, dt: int) -> int {
    (pre_aim * aim_speed * dt) / (aim_zoom_factor * ONE)
}

/// Orbit distance, bounded by `[min, max]` except while an aim zoom is in
/// progress, with the radius to come back to once aiming stops.
///
/// Lengths are in thousandths of a unit.
pub struct Zoom {
    pub min: i32,
    pub max: i32,
    pub radius: i64,
    /// The radius when aiming began; set while aiming or coming back from it.
    pub radius_copy: Option<i64>,
}

impl Zoom {
    /// The bounds are ordered and non-negative; without an aim in progress the
    /// radius lies within them, and so does the radius saved when aiming began.
    pub open spec fn wf(&self) -> bool {
        &&& 0 <= self.min <= self.max
        &&& 0 <= self.radius
        &&& match self.radius_copy {
            None => self.min <= self.radius <= self.max,
            Some(c) => self.min <= c <= self.max,
        }
    }

    /// The zoom after a scroll of `scroll` at `sensitivity`: unchanged for no
    /// scroll, else the scaled radius clamped to the bounds.
    pub open spec fn scrolled(self, scroll: int, sensitivity: int) -> Zoom {
        if scroll == 0 {
            self
        } else {
            Zoom {
                radius: clamp(
                    scrolled_radius(self.radius as int, scroll, sensitivity),
                    self.min as int,
                    self.max as int,
                ) as i64,
                ..self
            }
        }
    }

    /// The zoom after one frame of aiming (or of not aiming) lasting `dt`.
    pub open spec fn aimed(
        self,
        aiming: bool,
        aim_zoom_factor: int,
        aim_speed: int,
        dt: int,
    ) -> Zoom {
        if aiming {
            let c = match self.radius_copy {
                Some(c) => c as int,
                None => self.radius as int,
            };
            let desired = aim_target(self.min as int, aim_zoom_factor);
            let step = aim_step(c, aim_zoom_factor, aim_speed, dt);
            Zoom {
                radius: if self.radius - step <= desired {
                    desired as i64
                } else {
                    (self.radius - step) as i64
                },
                radius_copy: Some(c as i64),
                ..self
            }
        } else {
            match self.radius_copy {
                None => self,
                Some(c) => {
                    let step = aim_step(c as int, aim_zoom_factor, aim_speed, dt);
                    if self.radius + step >= c {
                        Zoom { radius: c, radius_copy: None, ..self }
                    } else {
                        Zoom { radius: (self.radius + step) as i64, ..self }
                    }
                },
            }
        }
    }

    /// A zoom between `min` and `max`, half-way between them, not aiming.
    pub open spec fn new_spec(min: i32, max: i32) -> Zoom {
        Zoom { min, max, radius: ((min + max) / 2) as i64, radius_copy: None }
    }

    /// A zoom between `min` and `max`, starting half-way between them.
    pub fn new(min: i32, max: i32) -> (r: Zoom)
        requires
            0 <= min <= max,
        ensures
            r.wf(),
            r == Zoom::new_spec(min, max),
            r.min == min,
            r.max == max,
            r.radius == (min + max) / 2,
            r.radius_copy.is_none(),
    {
        let radius = (min as i64 + max as i64) / 2;
        Zoom { min, max, radius, radius_copy: None }
    }

    /// Scales the radius by `1 - scroll * 0.1 * sensitivity` and clamps it to
    /// `[min, max]`; nothing happens when `scroll` is zero.
    pub fn apply_scroll(&mut self, scroll: i32, sensitivity: i32)
        requires
            old(self).wf(),
        ensures
            final(self).wf(),
            *final(self) == old(self).scrolled(scroll as int, sensitivity as int),
            scroll != 0 ==> final(self).min <= final(self).radius <= final(self).max,
    {
        if scroll != 0 {
            proof {
                lemma_product_bound(
                    self.radius as int,
                    scroll as int,
                    0x8000_0000_0000_0000int,
                    0x8000_0000int,
                );
                lemma_product_bound(
                    self.radius * scroll,
                    sensitivity as int,
                    0x4000_0000_0000_0000_0000_0000int,
                    0x8000_0000int,
                );
            }
            let n = mul3(self.radius, scroll as i64, sensitivity as i64);
            let d = div_floor(n, 10_000_000);
            proof {
                assert(-BOUND <= d <= BOUND) by (nonlinear_arith)
                    requires
                        -BOUND <= n <= BOUND,
                        d == n / 10_000_000,
                ;
            }
            let r = clamp_i128(self.radius as i128 - d, self.min as i128, self.max as i128);
            self.radius = r as i64;
        }
    }

    /// One frame of aim zoom. While `aiming`, the radius moves towards
    /// `min * aim_zoom_factor` by `(pre_aim / aim_zoom_factor) * aim_speed * dt`
    /// and stops there; the radius when aiming began is kept. Once `aiming`
    /// stops, it moves back by the same step until it reaches the kept radius,
    /// which is then forgotten.
    pub fn apply_aim(&mut self, aiming: bool, aim_zoom_factor: u32, aim_speed: u32, dt: u32)
        requires
            old(self).wf(),
            aim_zoom_factor > 0,
        ensures
            final(self).wf(),
            *final(self) == old(self).aimed(
                aiming,
                aim_zoom_factor as int,
                aim_speed as int,
                dt as int,
            ),
            final(self).radius_copy.is_none() ==> final(self).min <= final(self).radius
                <= final(self).max,
    {
        if aiming {
            if self.radius_copy.is_none() {
                self.radius_copy = Some(self.radius);
            }
            let c = match self.radius_copy {
                Some(c) => c,
                None => self.radius,
            };
            proof {
                lemma_product_bound(
                    self.min as int,
                    aim_zoom_factor as int,
                    0x8000_0000int,
                    0x1_0000_0000int,
                );
            }
            let desired = div_floor(self.min as i128 * aim_zoom_factor as i128, 1000);
            let step = self.step(c, aim_zoom_factor, aim_speed, dt);
            proof {
                assert(0 <= desired) by (nonlinear_arith)
                    requires
                        desired == (self.min * aim_zoom_factor) / (ONE as int),
                        self.min >= 0,
                ;
                assert(desired <= 0x80_0000_0000_0000) by (nonlinear_arith)
                    requires
                        desired == (self.min * aim_zoom_factor) / (ONE as int),
                        self.min <= 0x7fff_ffff,
                        aim_zoom_factor <= 0xffff_ffff,
                ;
            }
            if self.radius as i128 - step <= desired {
                self.radius = desired as i64;
            } else {
                self.radius = (self.radius as i128 - step) as i64;
            }
        } else {
            match self.radius_copy {
                None => {},
                Some(c) => {
                    let step = self.step(c, aim_zoom_factor, aim_speed, dt);
                    if step >= c as i128 - self.radius as i128 {
                        self.radius = c;
                        self.radius_copy = None;
                    } else {
                        self.radius = (self.radius as i128 + step) as i64;
                    }
                },
            }
        }
    }

    /// The aim step for a kept radius `c` within the bounds.
    fn step(&self, c: i64, aim_zoom_factor: u32, aim_speed: u32, dt: u32) -> (r: i128)
        requires
            self.wf(),
            self.min <= c <= self.max,
            aim_zoom_factor > 0,
        ensures
            r == aim_step(c as int, aim_zoom_factor as int, aim_speed as int, dt as int),
            0 <= r,
    {
        proof {
            lemma_product_bound(c as int, aim_speed as int, 0x8000_0000int, 0x1_0000_0000int);
            lemma_product_bound(
                c * aim_speed,
                dt as int,
                0x8000_0000_0000_0000int,
                0x1_0000_0000int,
            );
        }
        let n = mul3(c, aim_speed as i64, dt as i64);
        proof {
            assert(0 <= c * aim_speed) by (nonlinear_arith)
                requires
                    c >= 0,
            ;
            assert(0 <= (c * aim_speed) * dt) by (nonlinear_arith)
                requires
                    c * aim_speed >= 0,
            ;
        }
        let d: i128 = aim_zoom_factor as i128 * 1000;
        proof {
            assert(0 <= n / d) by (nonlinear_arith)
                requires
                    n >= 0,
                    d > 0,
            ;
        }
        n / d
    }
}

/// Scrolling by a non-zero amount, or an aim frame after which no aim is in
/// progress, leaves the radius within `[min, max]`.
pub proof fn lemma_radius_within_bounds(
    z: Zoom,
    scroll: i32,
    sensitivity: i32,
    aiming: bool,
    aim_zoom_factor: u32,
    aim_speed: u32,
    dt: u32,
)
    requires
        z.wf(),
        aim_zoom_factor > 0,
    ensures
        scroll != 0 ==> z.min <= z.scrolled(scroll as int, sensitivity as int).radius <= z.max,
        z.aimed(aiming, aim_zoom_factor as int, aim_speed as int, dt as int).radius_copy.is_none()
            ==> z.min <= z.aimed(
            aiming,
            aim_zoom_factor as int,
            aim_speed as int,
            dt as int,
        ).radius <= z.max,
{
}

/// Aiming for one frame from rest and then releasing for a frame whose step
/// covers the way back brings the radius back to exactly its value before
/// aiming, and forgets the saved radius.
pub proof fn lemma_aim_round_trip(
    z: Zoom,
    aim_zoom_factor: u32,
    aim_speed: u32,
    dt_in: u32,
    dt_out: u32,
)
    requires
        z.wf(),
        z.radius_copy.is_none(),
        aim_zoom_factor > 0,
        z.radius - aim_target(z.min as int, aim_zoom_factor as int) <= aim_step(
            z.radius as int,
            aim_zoom_factor as int,
            aim_speed as int,
            dt_out as int,
        ),
    ensures
        ({
            let back = z.aimed(true, aim_zoom_factor as int, aim_speed as int, dt_in as int).aimed(
                false,
                aim_zoom_factor as int,
                aim_speed as int,
                dt_out as int,
            );
            back.radius == z.radius && back.radius_copy.is_none()
        }),
{
    let desired = aim_target(z.min as int, aim_zoom_factor as int);
    let step = aim_step(z.radius as int, aim_zoom_factor as int, aim_speed as int, dt_in as int);
    assert(0 <= desired <= 0x80_0000_0000_0000) by (nonlinear_arith)
        requires
            desired == (z.min * aim_zoom_factor) / 1000,
            0 <= z.min <= 0x7fff_ffff,
            0 <= aim_zoom_factor <= 0xffff_ffff,
    ;
    assert(0 <= step) by (nonlinear_arith)
        requires
            step == (z.radius * aim_speed * dt_in) / (aim_zoom_factor * 1000),
            z.radius >= 0,
            aim_zoom_factor > 0,
    ;
}

} // verus!
