//! Fixed-point arithmetic for the simulator.
//!
//! Every physical quantity (position, velocity, mass, force, time) is an
//! `i64` counting micro-units: `SCALE` raw units stand for 1.0. Products
//! and quotients follow Rust's truncating integer division, stated exactly
//! by `div_trunc`.

use vstd::prelude::*;

verus! {

/// Raw units per 1.0 of a physical quantity.
pub const SCALE: i64 = 1_000_000;

/// Whether a mathematical integer fits in `i64`.
pub open spec fn in_i64(x: int) -> bool {
    i64::MIN <= x <= i64::MAX
}

/// Division truncating toward zero, as Rust's `/` computes it on signed
/// integers (spec `/` alone is Euclidean).
pub open spec fn div_trunc(x: int, d: int) -> int
    recommends
        d != 0,
{
    if x == 0 {
        0
    } else if x > 0 && d > 0 {
        x / d
    } else if x < 0 && d < 0 {
        (x * -1) / (d * -1)
    } else if x < 0 {
        ((x * -1) / d) * -1
    } else {
        (x / (d * -1)) * -1
    }
}

/// Acceleration from a force and a nonzero mass: `f / m` in fixed point.
pub open spec fn accel(f: int, m: int) -> int
    recommends
        m != 0,
{
    div_trunc(f * SCALE, m)
}

/// Fixed-point product `a * b`, used for `velocity * dt` and
/// `acceleration * dt`.
pub open spec fn scaled(a: int, b: int) -> int {
    div_trunc(a * b, SCALE as int)
}

/// Fixed-point multiply of two raw values: `trunc(a * b / SCALE)`.
/// `None` exactly when an intermediate leaves the `i64` range.
pub fn fx_mul(a: i64, b: i64) -> (r: Option<i64>)
    ensures
        r is Some <==> in_i64(a * b) && in_i64(scaled(a as int, b as int)),
        r is Some ==> r->0 == scaled(a as int, b as int),
{
    let p = match a.checked_mul(b) {
        Some(p) => p,
        None => {
            return None;
        },
    };
    p.checked_div(SCALE)
}

/// Fixed-point divide of two raw values: `trunc(a * SCALE / b)`.
/// `None` exactly when an intermediate leaves the `i64` range.
pub fn fx_div(a: i64, b: i64) -> (r: Option<i64>)
    requires
        b != 0,
    ensures
        r is Some <==> in_i64(a * SCALE) && in_i64(div_trunc(a * SCALE, b as int)),
        r is Some ==> r->0 == div_trunc(a * SCALE, b as int),
{
    let p = match a.checked_mul(SCALE) {
        Some(p) => p,
        None => {
            return None;
        },
    };
    p.checked_div(b)
}

} // verus!
