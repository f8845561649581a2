//! The first/third-person character controller: the player body, its camera
//! and its movement.
pub mod camera;
pub mod controller;
pub mod walk;
pub mod zoom;

use vstd::prelude::*;

use crate::fixed::{clamp, clamp_i128, div_floor, lemma_product_bound, mul3, mul_wide};

verus! {

/// `v` held within the range of an `i64`.
pub open spec fn saturate(v: int) -> int {
    clamp(v, i64::MIN as int, i64::MAX as int)
}

/// `a * b * c / 1_000_000`, rounded down, held within `i64`.
pub open spec fn scaled_velocity(a: int, b: int, c: int) -> int {
    saturate((a * b * c) / 1_000_000)
}

/// The player body. Velocities are in thousandths of a unit per second,
/// gravity in thousandths of a unit per second squared, speeds and sprint
/// factors in thousandths.
pub struct Player {
    pub velocity: (i64, i64, i64),
    pub gravity: u32,
    pub speed: u32,
    pub forward_sprint_speed: u32,
    pub backward_sprint_speed: u32,
    pub sprint_enabled: bool,
}

impl Player {
    /// The body after one fixed step lasting `dt` (thousandths of a second):
    /// at rest first when `grounded`; moving along `heading` (a unit vector in
    /// thousandths, on the ground plane) at `speed * sprint_speed` when there
    /// is one; then pulled down by gravity. Velocities saturate at the limits
    /// of `i64`.
    pub open spec fn moved(self, grounded: bool, heading: Option<(i32, i32)>, sprint_speed: u32, dt: u32) -> Player {
        let v0 = if grounded {
            (0i64, 0i64, 0i64)
        } else {
            self.velocity
        };
        let v1 = match heading {
            Some(h) => (
                scaled_velocity(h.0 as int, self.speed as int, sprint_speed as int) as i64,
                v0.1,
                scaled_velocity(h.1 as int, self.speed as int, sprint_speed as int) as i64,
            ),
            None => v0,
        };
        Player {
            velocity: (v1.0, saturate(v1.1 - (self.gravity * dt) / 1000) as i64, v1.2),
            ..self
        }
    }

    /// One fixed movement step (see [`Player::moved`]). Returns the
    /// translation that the character controller is to attempt: the new
    /// velocity times `dt`, held within `i64`.
    pub fn apply_movement(
        &mut self,
        grounded: bool,
        heading: Option<(i32, i32)>,
        sprint_speed: u32,
        dt: u32,
    ) -> (r: (i64, i64, i64))
        ensures
            *final(self) == old(self).moved(grounded, heading, sprint_speed, dt),
            r.0 == saturate((final(self).velocity.0 * dt) / 1000),
            r.1 == saturate((final(self).velocity.1 * dt) / 1000),
            r.2 == saturate((final(self).velocity.2 * dt) / 1000),
    {
        if grounded {
            self.velocity = (0, 0, 0);
        }
        match heading {
            Some(h) => {
                self.velocity.0 = scale_velocity(h.0, self.speed, sprint_speed);
                self.velocity.2 = scale_velocity(h.1, self.speed, sprint_speed);
            },
            None => {},
        }
        let fall = mul_wide(self.gravity as i64, dt as i64) / 1000;
        proof {
            assert(0 <= self.gravity * dt <= 0x1_0000_0000 * 0x1_0000_0000) by (nonlinear_arith)
                requires
                    0 <= self.gravity <= 0xffff_ffff,
                    0 <= dt <= 0xffff_ffff,
            ;
        }
        self.velocity.1 = clamp_i128(
            self.velocity.1 as i128 - fall,
            i64::MIN as i128,
            i64::MAX as i128,
        ) as i64;
        (
            travel(self.velocity.0, dt),
            travel(self.velocity.1, dt),
            travel(self.velocity.2, dt),
        )
    }
}

/// `component * speed * sprint_speed / 1_000_000`, rounded down, within `i64`.
fn scale_velocity(component: i32, speed: u32, sprint_speed: u32) -> (r: i64)
    ensures
        r == scaled_velocity(component as int, speed as int, sprint_speed as int),
{
    proof {
        lemma_product_bound(component as int, speed as int, 0x8000_0000int, 0x1_0000_0000int);
        lemma_product_bound(
            component * speed,
            sprint_speed as int,
            0x8000_0000_0000_0000int,
            0x1_0000_0000int,
        );
    }
    let n = mul3(component as i64, speed as i64, sprint_speed as i64);
    clamp_i128(div_floor(n, 1_000_000), i64::MIN as i128, i64::MAX as i128) as i64
}

/// `velocity * dt / 1000`, rounded down, within `i64`.
fn travel(velocity: i64, dt: u32) -> (r: i64)
    ensures
        r == saturate((velocity * dt) / 1000),
{
    proof {
        lemma_product_bound(velocity as int, dt as int, 0x8000_0000_0000_0000int, 0x1_0000_0000int);
    }
    let n = velocity as i128 * dt as i128;
    clamp_i128(div_floor(n, 1000), i64::MIN as i128, i64::MAX as i128) as i64
}

impl Default for Player {
    /// At rest, gravity 9.8, speed 20, sprint factors 2 forwards and 1.1
    /// backwards, sprinting enabled.
    fn default() -> (r: Player)
        ensures
            r.velocity == (0i64, 0i64, 0i64),
            r.gravity == 9800,
            r.speed == 20000,
            r.forward_sprint_speed == 2000,
            r.backward_sprint_speed == 1100,
            r.sprint_enabled,
    {
        Player {
            velocity: (0, 0, 0),
            gravity: 9800,
            speed: 20000,
            forward_sprint_speed: 2000,
            backward_sprint_speed: 1100,
            sprint_enabled: true,
        }
    }
}

} // verus!
