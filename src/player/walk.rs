//! Walking relative to the camera, without physics.
use vstd::prelude::*;

use crate::fixed::{clamp_i128, div_floor, lemma_product_bound, mul3};
use crate::player::saturate;

verus! {

/// The walking keys held this frame.
#[derive(Clone, Copy)]
pub struct WalkKeys {
    pub forward: bool,
    pub back: bool,
    pub left: bool,
    pub right: bool,
    pub up: bool,
    pub down: bool,
    pub quit: bool,
}

/// The sum of the camera vector components that the keys ask for: `forward`
/// for the forward key, `-forward` for the back key, `right` and `-right` for
/// the right and left keys.
pub open spec fn walk_dir(keys: WalkKeys, forward: int, right: int) -> int {
    (if keys.forward {
        forward
    } else {
        0
    }) - (if keys.back {
        forward
    } else {
        0
    }) + (if keys.right {
        right
    } else {
        0
    }) - (if keys.left {
        right
    } else {
        0
    })
}

/// One walking component: `walk_dir(keys, forward, right) * speed * dt /
/// 1_000_000`, rounded down, within `i64`.
pub open spec fn walk_component(keys: WalkKeys, forward: int, right: int, speed: int, dt: int) -> int {
    saturate(
        (walk_dir(keys, forward, right) * speed * dt) / 1_000_000,
    )
}

/// The translation of one walking frame: the camera's forward and right
/// vectors (unit length, in thousandths) as the keys ask, kept level, times
/// `speed` and `dt`; the up and down keys have no effect since the move is
/// kept level. `None` when the quit key is held.
pub fn player_movement(
    keys: WalkKeys,
    forward: (i32, i32, i32),
    right: (i32, i32, i32),
    speed: u32,
    dt: u32,
) -> (r: Option<(i64, i64, i64)>)
    ensures
        keys.quit ==> r.is_none(),
        !keys.quit ==> r == Some(
            (
                walk_component(keys, forward.0 as int, right.0 as int, speed as int, dt as int) as i64,
                0i64,
                walk_component(keys, forward.2 as int, right.2 as int, speed as int, dt as int) as i64,
            ),
        ),
{
    if keys.quit {
        return None;
    }
    let x = walk_axis(keys, forward.0, right.0, speed, dt);
    let z = walk_axis(keys, forward.2, right.2, speed, dt);
    Some((x, 0, z))
}

/// One component of [`player_movement`].
fn walk_axis(keys: WalkKeys, forward: i32, right: i32, speed: u32, dt: u32) -> (r: i64)
    ensures
        r == walk_component(keys, forward as int, right as int, speed as int, dt as int),
{
    let mut d: i64 = 0;
    if keys.forward {
        d = d + forward as i64;
    }
    if keys.back {
        d = d - forward as i64;
    }
    if keys.right {
        d = d + right as i64;
    }
    if keys.left {
        d = d - right as i64;
    }
    proof {
        lemma_product_bound(d as int, speed as int, 0x1_0000_0000int, 0x1_0000_0000int);
        lemma_product_bound(
            d * speed,
            dt as int,
            0x1_0000_0000_0000_0000int,
            0x1_0000_0000int,
        );
    }
    let n = mul3(d, speed as i64, dt as i64);
    clamp_i128(div_floor(n, 1_000_000), i64::MIN as i128, i64::MAX as i128) as i64
}

} // verus!
