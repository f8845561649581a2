//! Fixed-point arithmetic shared by the camera and controller logic.
use vstd::prelude::*;

verus! {

/// The fixed-point value of one whole unit: quantities are counted in thousandths.
pub const ONE: i64 = 1000;

/// A rotation by pi radians, in orbit angle units.
pub const HALF_TURN: i64 = 1_000_000_000;

/// A quarter turn (pi / 2 radians), in orbit angle units.
pub const QUARTER_TURN: i64 = 500_000_000;

/// A full turn (2 pi radians), in orbit angle units.
pub const FULL_TURN: i64 = 2_000_000_000;

/// `v` limited to the closed range `[lo, hi]`.
pub open spec fn clamp(v: int, lo: int, hi: int) -> int {
    if v < lo {
        lo
    } else if v > hi {
        hi
    } else {
        v
    }
}

/// The angle `a` brought into the range `(-HALF_TURN, HALF_TURN]`.
pub open spec fn signed_angle(a: int) -> int {
    let w = a % (FULL_TURN as int);
    if w > HALF_TURN {
        w - FULL_TURN
    } else {
        w
    }
}

/// Floor division of `n` by a positive `d`.
pub fn div_floor(n: i128, d: i128) -> (r: i128)
    requires
        d > 0,
    ensures
        r == n / d,
{
    if n >= 0 {
        n / d
    } else {
        let q = (-(n + 1)) / d;
        proof {
            let m: int = -(n + 1);
            let dd: int = d as int;
            let nn: int = n as int;
            assert(nn / dd == -(m / dd) - 1) by (nonlinear_arith)
                requires
                    dd > 0,
                    nn < 0,
                    m == -(nn + 1),
            ;
        }
        -q - 1
    }
}

/// A magnitude that wide intermediate results stay within (2 to the 126).
pub const BOUND: i128 = 0x4000_0000_0000_0000_0000_0000_0000_0000;

/// The exact product of two 64-bit integers.
pub fn mul_wide(a: i64, b: i64) -> (r: i128)
    ensures
        r == a * b,
{
    proof {
        lemma_product_bound(a as int, b as int, 0x8000_0000_0000_0000, 0x8000_0000_0000_0000);
    }
    a as i128 * b as i128
}

/// The exact product `a * b * c`, for factors whose product is far from the
/// limits of `i128`.
pub fn mul3(a: i64, b: i64, c: i64) -> (r: i128)
    requires
        -BOUND <= a * b * c <= BOUND,
    ensures
        r == a * b * c,
{
    let ab = mul_wide(a, b);
    ab * c as i128
}

/// A bound on a product from bounds on its factors.
pub proof fn lemma_product_bound(a: int, b: int, x: int, y: int)
    requires
        -x <= a <= x,
        -y <= b <= y,
    ensures
        -(x * y) <= a * b <= x * y,
{
    assert(-(x * y) <= a * b <= x * y) by (nonlinear_arith)
        requires
            -x <= a <= x,
            -y <= b <= y,
    ;
}

/// `v` limited to `[lo, hi]`.
pub fn clamp_i128(v: i128, lo: i128, hi: i128) -> (r: i128)
    requires
        lo <= hi,
    ensures
        r == clamp(v as int, lo as int, hi as int),
        lo <= r <= hi,
{
    if v < lo {
        lo
    } else if v > hi {
        hi
    } else {
        v
    }
}

/// The angle `a` reduced modulo a full turn, in `[0, FULL_TURN)`.
pub fn wrap_turn(a: i128) -> (r: i64)
    requires
        -BOUND <= a <= BOUND,
    ensures
        r == (a as int) % (FULL_TURN as int),
        0 <= r < FULL_TURN,
{
    let full: i128 = FULL_TURN as i128;
    let q = div_floor(a, full);
    proof {
        let aa: int = a as int;
        let ff: int = full as int;
        assert(aa - (aa / ff) * ff == aa % ff && 0 <= aa % ff < ff) by (nonlinear_arith)
            requires
                ff > 0,
        ;
        assert(a - ff <= q * ff <= a) by (nonlinear_arith)
            requires
                ff > 0,
                q == aa / ff,
                aa == a,
        ;
    }
    (a - q * full) as i64
}

/// The angle `a` brought into `(-HALF_TURN, HALF_TURN]`.
pub fn signed_turn(a: i128) -> (r: i64)
    requires
        -BOUND <= a <= BOUND,
    ensures
        r == signed_angle(a as int),
        -HALF_TURN < r <= HALF_TURN,
{
    let w = wrap_turn(a);
    if w > HALF_TURN {
        w - FULL_TURN
    } else {
        w
    }
}

} // verus!
