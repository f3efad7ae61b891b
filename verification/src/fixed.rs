//! Fixed-point scalars and the truncating division they share.
//!
//! A scalar is an integer counting units of `1 / SCALE`; `SCALE` itself
//! stands for 1.0. Screen positions and window sizes are `i64` scalars,
//! camera coordinates are `i128` scalars so that a whole tick's worth of
//! displacements can accumulate without overflow.

use vstd::prelude::*;
use vstd::arithmetic::div_mod::{lemma_div_nonincreasing, lemma_div_of0, lemma_div_pos_is_pos};

verus! {

/// Fixed-point unit: this many integer steps stand for 1.0.
pub const SCALE: i64 = 1000;

/// World-space drag factor: a drag across the full window moves the camera
/// by 5.0 world units (`5 * SCALE` fixed-point steps).
pub const DRAG_SCALE: i64 = 5000;

/// A rotation gesture's angle delta is divided by this before it is applied.
pub const ROTATION_DAMPING: i64 = 10;

/// Largest magnitude allowed for a touch coordinate, a window dimension or a
/// rotation angle (one million pixels, or one million angle units, at `SCALE`).
pub const MAX_COORD: i64 = 1_000_000_000;

/// Largest magnitude allowed for a camera coordinate or roll at the start of
/// a tick.
pub const MAX_CAMERA: i128 = 1_000_000_000_000_000_000;

/// Largest displacement one touch event can cause along one axis:
/// `2 * MAX_COORD * DRAG_SCALE`, divided by a window dimension of at least 1.
pub const MAX_STEP: i128 = 10_000_000_000_000;

/// Division truncating toward zero, as Rust's `/` on signed integers does.
pub open spec fn div_trunc(a: int, b: int) -> int
    recommends
        1 <= b,
{
    if a >= 0 {
        a / b
    } else {
        -((-a) / b)
    }
}

/// Truncating toward zero never grows a value's magnitude.
pub proof fn lemma_div_trunc_bound(a: int, b: int)
    requires
        1 <= b,
    ensures
        a >= 0 ==> 0 <= div_trunc(a, b) <= a,
        a < 0 ==> a <= div_trunc(a, b) <= 0,
{
    if a >= 0 {
        lemma_div_pos_is_pos(a, b);
        lemma_div_nonincreasing(a, b);
    } else {
        lemma_div_pos_is_pos(-a, b);
        lemma_div_nonincreasing(-a, b);
    }
}

/// Exact truncating division on the wide scalar type.
pub fn div_trunc_i128(a: i128, b: i128) -> (q: i128)
    requires
        1 <= b,
    ensures
        q == div_trunc(a as int, b as int),
{
    proof {
        lemma_div_of0(b as int);
        lemma_div_trunc_bound(a as int, b as int);
    }
    match a.checked_div(b) {
        Some(q) => q,
        None => {
            proof {
                assert(false);
            }
            0
        },
    }
}

} // verus!
