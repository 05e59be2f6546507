//! The point field generator: places N points on the unit sphere along a
//! golden-angle spiral, fully deterministically, each with initial material
//! `Dirt` and identity equal to its index.

use vstd::prelude::*;
use crate::geometry::{
    Pos3, SCALE, TWO_PI_FP, pos_bounded, spec_clamp_unit, clamp_unit,
    spec_isqrt, isqrt, spec_scale_mul, scale_mul, spec_cos_fp, cos_fp, spec_sin_fp, sin_fp,
    lemma_mul_le, lemma_square_bound,
};
use crate::material::Material;
use crate::point::{Point, PointState, state_bounded};

verus! {

/// The spiral's angular increment per point, in fixed-point radians. The
/// literal value is the golden ratio itself, not the canonical golden angle;
/// it is kept as the spiral's defining constant, serving only as an
/// irrational-like increment against periodic overlap.
pub const GOLDEN_ANGLE_FP: i64 = 1_618_034;

/// Upper bound on the point count, so that all fixed-point products along
/// the spiral fit in 64-bit arithmetic.
pub const MAX_POINTS: usize = 1_000_000_000;

/// Height of point `i` of `n`: a linear descent from +1 to -1, saturated
/// into the unit range.
pub open spec fn spec_spiral_y(i: int, n: int) -> int
    recommends
        0 < n,
{
    spec_clamp_unit(SCALE as int - (2 * (SCALE as int) * i) / n)
}

/// Horizontal ring radius of point `i` of `n`: the square root of
/// `1 - y * y`, with the radicand guarded non-negative.
pub open spec fn spec_spiral_radius(i: int, n: int) -> int
    recommends
        0 < n,
{
    let y = spec_spiral_y(i, n);
    let r2 = (SCALE as int) * (SCALE as int) - y * y;
    spec_isqrt(if r2 < 0 { 0 } else { r2 })
}

/// Spiral angle of point `i`, reduced to one turn.
pub open spec fn spec_spiral_theta(i: int) -> int {
    ((GOLDEN_ANGLE_FP as int) * i) % (TWO_PI_FP as int)
}

/// The position of point `i` of `n` on the golden-angle spiral.
pub open spec fn spec_spiral_pos(i: int, n: int) -> Pos3
    recommends
        0 < n,
{
    let y = spec_spiral_y(i, n);
    let radius = spec_spiral_radius(i, n);
    let theta = spec_spiral_theta(i);
    Pos3 {
        x: spec_scale_mul(spec_cos_fp(theta), radius) as i64,
        y: y as i64,
        z: spec_scale_mul(spec_sin_fp(theta), radius) as i64,
    }
}

/// Point `i` of a freshly generated field of `n` points: spiral position,
/// identity `i`, initial material `Dirt`.
pub open spec fn spec_generated_point(i: int, n: int) -> PointState
    recommends
        0 < n,
{
    PointState {
        point: Point { position: spec_spiral_pos(i, n), id: i as usize },
        material: Material::Dirt,
    }
}

/// The full generated field for a target count `n`.
pub open spec fn spec_generate(n: int) -> Seq<PointState>
    recommends
        0 <= n,
{
    Seq::new(n as nat, |i: int| spec_generated_point(i, n))
}

/// Computes the spiral position of point `i` of `n`.
fn spiral_point(i: usize, n: usize) -> (p: Pos3)
    requires
        0 < n <= MAX_POINTS,
        i < n,
    ensures
        p == spec_spiral_pos(i as int, n as int),
        pos_bounded(p),
{
    proof {
        lemma_mul_le(2_000_000, i as int, 2_000_000, 1_000_000_000);
    }
    let yq: i64 = (2 * SCALE * (i as i64)) / (n as i64);
    let y: i64 = clamp_unit(SCALE - yq);
    proof {
        lemma_square_bound(y as int, SCALE as int);
    }
    let r2: i64 = SCALE * SCALE - y * y;
    let r2c: i64 = if r2 < 0 {
        0
    } else {
        r2
    };
    let radius: i64 = isqrt(r2c);
    proof {
        lemma_mul_le(GOLDEN_ANGLE_FP as int, i as int, 1_618_034, 1_000_000_000);
    }
    let theta: i64 = (GOLDEN_ANGLE_FP * (i as i64)) % TWO_PI_FP;
    let c: i64 = cos_fp(theta);
    let s: i64 = sin_fp(theta);
    let p = Pos3 { x: scale_mul(c, radius), y, z: scale_mul(s, radius) };
    p
}

/// Generates the point field for a target count `n`: exactly `n` points on
/// the golden-angle spiral, each with identity equal to its index and
/// initial material `Dirt`. Fully deterministic: the result is pinned to
/// [`spec_generate`], so two calls with the same `n` agree exactly.
pub fn generate(n: usize) -> (r: Vec<PointState>)
    requires
        n <= MAX_POINTS,
    ensures
        r@.len() == n,
        r@ == spec_generate(n as int),
        state_bounded(r@),
        forall|i: int| 0 <= i < n ==> (#[trigger] r@[i]).material == Material::Dirt,
        forall|i: int| 0 <= i < n ==> (#[trigger] r@[i]).point.id == i,
{
    let mut out: Vec<PointState> = Vec::new();
    let mut i: usize = 0;
    while i < n
        invariant
            i <= n,
            n <= MAX_POINTS,
            out@.len() == i,
            forall|j: int| 0 <= j < i ==> out@[j] == spec_generate(n as int)[j],
            forall|j: int| 0 <= j < i ==> pos_bounded(#[trigger] out@[j].point.position),
        decreases n - i,
    {
        let p = spiral_point(i, n);
        out.push(PointState { point: Point { position: p, id: i }, material: Material::Dirt });
        i += 1;
    }
    proof {
        assert(out@ =~= spec_generate(n as int));
    }
    out
}

} // verus!
