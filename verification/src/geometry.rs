//! Fixed-point geometry for points on the unit sphere.
//!
//! Coordinates are signed fixed-point numbers with [`SCALE`] units per 1.0,
//! so every unit-sphere coordinate fits in `[-SCALE, SCALE]`. All arithmetic
//! is exact integer arithmetic, which keeps point placement and distance
//! comparison fully deterministic.

use vstd::prelude::*;

verus! {

/// Fixed-point units per 1.0.
pub const SCALE: i64 = 1_000_000;

/// Half pi in fixed-point units.
pub const HALF_PI_FP: i64 = 1_570_796;

/// Pi in fixed-point units.
pub const PI_FP: i64 = 3_141_593;

/// Two pi in fixed-point units.
pub const TWO_PI_FP: i64 = 6_283_185;

/// A 3D position with fixed-point coordinates; never mutated after a point
/// is generated.
#[derive(Clone, Copy, Debug, PartialEq, Eq, Structural)]
pub struct Pos3 {
    pub x: i64,
    pub y: i64,
    pub z: i64,
}

/// A coordinate of a unit-sphere point stays within one unit of the origin.
pub open spec fn coord_bounded(c: i64) -> bool {
    -SCALE <= c <= SCALE
}

/// All three coordinates are within the unit range.
pub open spec fn pos_bounded(p: Pos3) -> bool {
    coord_bounded(p.x) && coord_bounded(p.y) && coord_bounded(p.z)
}

/// Squared Euclidean distance between two positions, in exact integer
/// arithmetic; only relative ordering of distances matters to the automaton.
pub open spec fn spec_dist2(p: Pos3, q: Pos3) -> int {
    (p.x - q.x) * (p.x - q.x) + (p.y - q.y) * (p.y - q.y) + (p.z - q.z) * (p.z - q.z)
}

/// Products of equally bounded factors stay within the squared bound.
pub proof fn lemma_mul_le(a: int, b: int, c: int, d: int)
    by (nonlinear_arith)
    requires
        0 <= a <= c,
        0 <= b <= d,
    ensures
        0 <= a * b <= c * d,
{
}

/// The square of a value bounded in magnitude is bounded by the squared bound.
pub proof fn lemma_square_bound(a: int, b: int)
    by (nonlinear_arith)
    requires
        -b <= a <= b,
        0 <= b,
    ensures
        0 <= a * a <= b * b,
{
}

/// Computes the squared Euclidean distance between two bounded positions.
pub fn dist2(p: &Pos3, q: &Pos3) -> (r: i64)
    requires
        pos_bounded(*p),
        pos_bounded(*q),
    ensures
        r == spec_dist2(*p, *q),
        0 <= r <= 12_000_000_000_000,
{
    let dx: i64 = p.x - q.x;
    let dy: i64 = p.y - q.y;
    let dz: i64 = p.z - q.z;
    proof {
        lemma_square_bound(dx as int, 2_000_000);
        lemma_square_bound(dy as int, 2_000_000);
        lemma_square_bound(dz as int, 2_000_000);
    }
    dx * dx + dy * dy + dz * dz
}

/// Saturates a value into the unit coordinate range.
pub open spec fn spec_clamp_unit(v: int) -> int {
    if v > SCALE as int {
        SCALE as int
    } else if v < -(SCALE as int) {
        -(SCALE as int)
    } else {
        v
    }
}

/// Clamps a fixed-point value into `[-SCALE, SCALE]`.
pub fn clamp_unit(v: i64) -> (r: i64)
    ensures
        r == spec_clamp_unit(v as int),
        coord_bounded(r),
{
    if v > SCALE {
        SCALE
    } else if v < -SCALE {
        -SCALE
    } else {
        v
    }
}

/// Fixed-point product `a * b / SCALE` with truncation toward zero, for a
/// unit-range `a` and a non-negative unit-range `b`.
pub open spec fn spec_scale_mul(a: int, b: int) -> int {
    if a >= 0 {
        (a * b) / (SCALE as int)
    } else {
        -(((-a) * b) / (SCALE as int))
    }
}

/// Multiplies two fixed-point values and rescales, staying in unit range.
pub fn scale_mul(a: i64, b: i64) -> (r: i64)
    requires
        -SCALE <= a <= SCALE,
        0 <= b <= SCALE,
    ensures
        r == spec_scale_mul(a as int, b as int),
        coord_bounded(r),
{
    if a >= 0 {
        proof {
            lemma_mul_le(a as int, b as int, SCALE as int, SCALE as int);
        }
        (a * b) / SCALE
    } else {
        proof {
            lemma_mul_le(-a as int, b as int, SCALE as int, SCALE as int);
        }
        -(((-a) * b) / SCALE)
    }
}

/// `r` is the integer square root of `v`.
pub open spec fn is_isqrt(v: int, r: int) -> bool {
    0 <= r && r * r <= v && v < (r + 1) * (r + 1)
}

/// The integer square root: the unique `r >= 0` with
/// `r * r <= v < (r + 1) * (r + 1)`.
pub open spec fn spec_isqrt(v: int) -> int {
    choose|r: int| is_isqrt(v, r)
}

/// At most one integer satisfies the square-root characterisation.
pub proof fn lemma_isqrt_unique(v: int, a: int, b: int)
    requires
        is_isqrt(v, a),
        is_isqrt(v, b),
    ensures
        a == b,
{
    if a < b {
        lemma_mul_le(a + 1, a + 1, b, b);
        assert(false);
    }
    if b < a {
        lemma_mul_le(b + 1, b + 1, a, a);
        assert(false);
    }
}

/// Computes the integer square root of a non-negative fixed-point square,
/// by binary search.
pub fn isqrt(v: i64) -> (r: i64)
    requires
        0 <= v <= 1_000_000_000_000,
    ensures
        0 <= r <= SCALE,
        is_isqrt(v as int, r as int),
        r == spec_isqrt(v as int),
{
    let mut lo: i64 = 0;
    let mut hi: i64 = 1_000_001;
    proof {
        assert(1_000_001 * 1_000_001 > 1_000_000_000_000) by (nonlinear_arith);
    }
    while lo + 1 < hi
        invariant
            0 <= lo < hi <= 1_000_001,
            lo * lo <= v,
            v < hi * hi,
        decreases hi - lo,
    {
        let mid: i64 = lo + (hi - lo) / 2;
        proof {
            lemma_mul_le(mid as int, mid as int, 1_000_001, 1_000_001);
        }
        if mid * mid <= v {
            lo = mid;
        } else {
            hi = mid;
        }
    }
    proof {
        assert(is_isqrt(v as int, lo as int));
        assert(exists|r: int| is_isqrt(v as int, r));
        lemma_isqrt_unique(v as int, lo as int, spec_isqrt(v as int));
    }
    lo
}

/// Fixed-point cosine on one quarter wave, `0 <= u` slightly past half pi,
/// via the truncated series `1 - u^2/2 + u^4/24 - u^6/720`, saturated into
/// the unit range.
pub open spec fn spec_cos_quarter(u: int) -> int {
    let u2 = (u * u) / (SCALE as int);
    let u4 = (u2 * u2) / (SCALE as int);
    let u6 = (u4 * u2) / (SCALE as int);
    spec_clamp_unit(SCALE as int - u2 / 2 + u4 / 24 - u6 / 720)
}

/// Fixed-point sine on one quarter wave, via the truncated series
/// `u - u^3/6 + u^5/120`, saturated into the unit range.
pub open spec fn spec_sin_quarter(u: int) -> int {
    let u2 = (u * u) / (SCALE as int);
    let u3 = (u2 * u) / (SCALE as int);
    let u5 = (u3 * u2) / (SCALE as int);
    spec_clamp_unit(u - u3 / 6 + u5 / 120)
}

/// Computes the quarter-wave fixed-point cosine.
fn cos_quarter(u: i64) -> (r: i64)
    requires
        0 <= u <= 1_570_797,
    ensures
        r == spec_cos_quarter(u as int),
        coord_bounded(r),
{
    proof {
        lemma_mul_le(u as int, u as int, 1_570_797, 1_570_797);
    }
    let u2: i64 = (u * u) / SCALE;
    proof {
        lemma_mul_le(u2 as int, u2 as int, 2_467_404, 2_467_404);
    }
    let u4: i64 = (u2 * u2) / SCALE;
    proof {
        lemma_mul_le(u4 as int, u2 as int, 6_088_083, 2_467_404);
    }
    let u6: i64 = (u4 * u2) / SCALE;
    clamp_unit(SCALE - u2 / 2 + u4 / 24 - u6 / 720)
}

/// Computes the quarter-wave fixed-point sine.
fn sin_quarter(u: i64) -> (r: i64)
    requires
        0 <= u <= 1_570_797,
    ensures
        r == spec_sin_quarter(u as int),
        coord_bounded(r),
{
    proof {
        lemma_mul_le(u as int, u as int, 1_570_797, 1_570_797);
    }
    let u2: i64 = (u * u) / SCALE;
    proof {
        lemma_mul_le(u2 as int, u as int, 2_467_404, 1_570_797);
    }
    let u3: i64 = (u2 * u) / SCALE;
    proof {
        lemma_mul_le(u3 as int, u2 as int, 3_875_800, 2_467_404);
    }
    let u5: i64 = (u3 * u2) / SCALE;
    clamp_unit(u - u3 / 6 + u5 / 120)
}

/// Fixed-point cosine on one full turn, `0 <= t < TWO_PI_FP`, by quadrant
/// reduction onto the quarter-wave series.
pub open spec fn spec_cos_fp(t: int) -> int {
    if t < HALF_PI_FP as int {
        spec_cos_quarter(t)
    } else if t < PI_FP as int {
        -spec_sin_quarter(t - HALF_PI_FP as int)
    } else if t < PI_FP as int + HALF_PI_FP as int {
        -spec_cos_quarter(t - PI_FP as int)
    } else {
        spec_sin_quarter(t - (PI_FP as int + HALF_PI_FP as int))
    }
}

/// Fixed-point sine on one full turn, by quadrant reduction onto the
/// quarter-wave series.
pub open spec fn spec_sin_fp(t: int) -> int {
    if t < HALF_PI_FP as int {
        spec_sin_quarter(t)
    } else if t < PI_FP as int {
        spec_cos_quarter(t - HALF_PI_FP as int)
    } else if t < PI_FP as int + HALF_PI_FP as int {
        -spec_sin_quarter(t - PI_FP as int)
    } else {
        -spec_cos_quarter(t - (PI_FP as int + HALF_PI_FP as int))
    }
}

/// Computes the fixed-point cosine of an angle reduced to one turn.
pub fn cos_fp(t: i64) -> (r: i64)
    requires
        0 <= t < TWO_PI_FP,
    ensures
        r == spec_cos_fp(t as int),
        coord_bounded(r),
{
    if t < HALF_PI_FP {
        cos_quarter(t)
    } else if t < PI_FP {
        -sin_quarter(t - HALF_PI_FP)
    } else if t < PI_FP + HALF_PI_FP {
        -cos_quarter(t - PI_FP)
    } else {
        sin_quarter(t - (PI_FP + HALF_PI_FP))
    }
}

/// Computes the fixed-point sine of an angle reduced to one turn.
pub fn sin_fp(t: i64) -> (r: i64)
    requires
        0 <= t < TWO_PI_FP,
    ensures
        r == spec_sin_fp(t as int),
        coord_bounded(r),
{
    if t < HALF_PI_FP {
        sin_quarter(t)
    } else if t < PI_FP {
        cos_quarter(t - HALF_PI_FP)
    } else if t < PI_FP + HALF_PI_FP {
        -sin_quarter(t - PI_FP)
    } else {
        -cos_quarter(t - (PI_FP + HALF_PI_FP))
    }
}

} // verus!
