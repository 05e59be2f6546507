//! The library's laws: properties that relate several operations, stated
//! over the same spec functions the operations' own contracts use.

use vstd::prelude::*;
use crate::engine::{
    Neighbor, spec_candidates, spec_count, spec_five_closest, spec_insert_closest, spec_reset,
    lemma_count_total, lemma_insert_closest_len, lemma_max_from_in_range, spec_max_from,
    spec_max_index, NEIGHBOR_LIMIT,
};
use crate::generate::spec_generate;
use crate::geometry::{Pos3, spec_dist2, lemma_square_bound, pos_bounded};
use crate::material::Material;
use crate::point::{PointState, state_bounded};

verus! {

/// Determinism of generation: any two point fields generated for the same
/// count are identical, position for position, because the generator's
/// contract pins its whole result to `spec_generate`.
pub proof fn lemma_generate_deterministic(a: Seq<PointState>, b: Seq<PointState>, n: int)
    requires
        a == spec_generate(n),
        b == spec_generate(n),
    ensures
        a == b,
{
}

/// Reset idempotence: resetting a reset state changes nothing, since every
/// material is already `Dirt` and points are untouched.
pub proof fn lemma_reset_idempotent(s: Seq<PointState>)
    ensures
        spec_reset(spec_reset(s)) == spec_reset(s),
{
    assert(spec_reset(spec_reset(s)) =~= spec_reset(s));
}

/// A count capped at the neighbour limit.
pub open spec fn spec_capped(c: int) -> int {
    if c < NEIGHBOR_LIMIT {
        c
    } else {
        NEIGHBOR_LIMIT as int
    }
}

/// How many candidate points other than `k` have index below `j`.
pub open spec fn spec_others_below(k: int, j: int) -> int {
    if k < j {
        j - 1
    } else {
        j
    }
}

proof fn lemma_candidates_len(s: Seq<PointState>, k: int, j: int)
    requires
        0 <= k < s.len(),
        0 <= j <= s.len(),
    ensures
        spec_candidates(s, k, j).len() == spec_capped(spec_others_below(k, j)),
    decreases j,
{
    if j > 0 {
        lemma_candidates_len(s, k, j - 1);
        if j - 1 != k {
            lemma_insert_closest_len(
                spec_candidates(s, k, j - 1),
                Neighbor {
                    material: s[j - 1].material,
                    dist2: spec_dist2(s[k].point.position, s[j - 1].point.position) as i64,
                },
            );
        }
    }
}

/// A point's recorded neighbour list holds exactly five entries once the
/// state has at least six points, and N - 1 entries below that.
pub proof fn lemma_five_closest_len(s: Seq<PointState>, k: int)
    requires
        0 <= k < s.len(),
    ensures
        spec_five_closest(s, k).len() == spec_capped(s.len() - 1),
{
    lemma_candidates_len(s, k, s.len() as int);
}

/// Neighbour count boundedness: the three material counts of a point's
/// recorded neighbours sum to exactly five whenever the state has at least
/// six points, and to N - 1 below that.
pub proof fn lemma_tally_total(s: Seq<PointState>, k: int)
    requires
        0 <= k < s.len(),
    ensures
        spec_count(spec_five_closest(s, k), Material::Dirt) + spec_count(
            spec_five_closest(s, k),
            Material::Grass,
        ) + spec_count(spec_five_closest(s, k), Material::Water) == spec_capped(s.len() - 1),
{
    lemma_five_closest_len(s, k);
    lemma_count_total(spec_five_closest(s, k));
}

/// The squared distance is symmetric in its two endpoints.
pub proof fn lemma_dist2_symmetric(p: Pos3, q: Pos3)
    ensures
        spec_dist2(p, q) == spec_dist2(q, p),
{
    assert((p.x - q.x) * (p.x - q.x) == (q.x - p.x) * (q.x - p.x)) by (nonlinear_arith);
    assert((p.y - q.y) * (p.y - q.y) == (q.y - p.y) * (q.y - p.y)) by (nonlinear_arith);
    assert((p.z - q.z) * (p.z - q.z) == (q.z - p.z) * (q.z - p.z)) by (nonlinear_arith);
}

/// The squared distance of two bounded positions fits the recorded range.
pub proof fn lemma_dist2_bounded(p: Pos3, q: Pos3)
    requires
        pos_bounded(p),
        pos_bounded(q),
    ensures
        0 <= spec_dist2(p, q) <= 12_000_000_000_000,
{
    lemma_square_bound(p.x - q.x, 2_000_000);
    lemma_square_bound(p.y - q.y, 2_000_000);
    lemma_square_bound(p.z - q.z, 2_000_000);
}

/// `e` was recorded for point `k` from some other point `j`, with `j`'s
/// snapshot material, and the pair's squared distance reads the same from
/// either side.
pub open spec fn mutual_neighbor(s: Seq<PointState>, k: int, e: Neighbor) -> bool {
    exists|j: int|
        0 <= j < s.len() && j != k && e.material == (#[trigger] s[j]).material && e.dist2
            == spec_dist2(s[k].point.position, s[j].point.position) && e.dist2 == spec_dist2(
            s[j].point.position,
            s[k].point.position,
        )
}

proof fn lemma_insert_closest_elems(l: Seq<Neighbor>, nb: Neighbor, idx: int)
    requires
        0 <= idx < spec_insert_closest(l, nb).len(),
    ensures
        l.contains(spec_insert_closest(l, nb)[idx]) || spec_insert_closest(l, nb)[idx] == nb,
{
    let r = spec_insert_closest(l, nb);
    if l.len() < NEIGHBOR_LIMIT {
        if idx < l.len() {
            assert(r[idx] == l[idx]);
            assert(l.contains(l[idx]));
        } else {
            assert(r[idx] == nb);
        }
    } else {
        lemma_max_from_in_range(l, 1, 0);
        let mi = spec_max_index(l);
        if nb.dist2 < l[mi].dist2 && idx == mi {
            assert(r[idx] == nb);
        } else {
            assert(r[idx] == l[idx]);
            assert(l.contains(l[idx]));
        }
    }
}

proof fn lemma_candidates_mutual(s: Seq<PointState>, k: int, j: int, idx: int)
    requires
        state_bounded(s),
        0 <= k < s.len(),
        0 <= j <= s.len(),
        0 <= idx < spec_candidates(s, k, j).len(),
    ensures
        mutual_neighbor(s, k, spec_candidates(s, k, j)[idx]),
    decreases j,
{
    let prev = spec_candidates(s, k, j - 1);
    if j - 1 == k {
        lemma_candidates_mutual(s, k, j - 1, idx);
    } else {
        let nb = Neighbor {
            material: s[j - 1].material,
            dist2: spec_dist2(s[k].point.position, s[j - 1].point.position) as i64,
        };
        let e = spec_candidates(s, k, j)[idx];
        lemma_insert_closest_elems(prev, nb, idx);
        if prev.contains(e) {
            let pidx = choose|pi: int| 0 <= pi < prev.len() && prev[pi] == e;
            lemma_candidates_mutual(s, k, j - 1, pidx);
        } else {
            lemma_dist2_bounded(s[k].point.position, s[j - 1].point.position);
            lemma_dist2_symmetric(s[k].point.position, s[j - 1].point.position);
            assert(0 <= j - 1 < s.len() && j - 1 != k && e.material == s[j - 1].material
                && e.dist2 == spec_dist2(s[k].point.position, s[j - 1].point.position) && e.dist2
                == spec_dist2(s[j - 1].point.position, s[k].point.position));
        }
    }
}

/// The squared distance the engine records for the pair `(k, j)`.
pub open spec fn spec_pair_dist(s: Seq<PointState>, k: int, j: int) -> i64 {
    spec_dist2(s[k].point.position, s[j].point.position) as i64
}

/// The largest squared distance recorded in a non-empty neighbour list.
pub open spec fn spec_max_dist(l: Seq<Neighbor>) -> int
    recommends
        l.len() >= 1,
{
    l[spec_max_index(l)].dist2 as int
}

/// Some entry of `l` records the squared distance `d`.
pub open spec fn has_dist(l: Seq<Neighbor>, d: int) -> bool {
    exists|idx: int| 0 <= idx < l.len() && (#[trigger] l[idx]).dist2 == d
}

proof fn lemma_max_from_is_max(l: Seq<Neighbor>, i: int, best: int)
    requires
        0 <= best < l.len(),
        0 <= i,
    ensures
        l[spec_max_from(l, i, best)].dist2 >= l[best].dist2,
        forall|idx: int|
            i <= idx < l.len() ==> l[spec_max_from(l, i, best)].dist2 >= (#[trigger] l[idx]).dist2,
    decreases l.len() - i,
{
    if 0 <= i < l.len() {
        lemma_max_from_is_max(
            l,
            i + 1,
            if l[i].dist2 > l[best].dist2 {
                i
            } else {
                best
            },
        );
    }
}

/// The first-max entry records a distance no smaller than any other entry's.
pub proof fn lemma_max_index_is_max(l: Seq<Neighbor>)
    requires
        l.len() >= 1,
    ensures
        0 <= spec_max_index(l) < l.len(),
        forall|idx: int| 0 <= idx < l.len() ==> (#[trigger] l[idx]).dist2 <= spec_max_dist(l),
{
    lemma_max_from_in_range(l, 1, 0);
    lemma_max_from_is_max(l, 1, 0);
}

proof fn lemma_insert_full(l: Seq<Neighbor>, nb: Neighbor)
    requires
        l.len() == NEIGHBOR_LIMIT,
    ensures
        spec_insert_closest(l, nb).len() == l.len(),
        spec_max_dist(spec_insert_closest(l, nb)) <= spec_max_dist(l),
        has_dist(spec_insert_closest(l, nb), nb.dist2 as int) || nb.dist2 >= spec_max_dist(
            spec_insert_closest(l, nb),
        ),
        forall|d: int|
            #[trigger] has_dist(l, d) ==> has_dist(spec_insert_closest(l, nb), d) || d
                >= spec_max_dist(spec_insert_closest(l, nb)),
{
    let r = spec_insert_closest(l, nb);
    lemma_max_index_is_max(l);
    let mi = spec_max_index(l);
    if nb.dist2 < l[mi].dist2 {
        assert(r == l.update(mi, nb));
        lemma_max_index_is_max(r);
        assert(r[mi] == nb);
        assert(has_dist(r, nb.dist2 as int));
        // every entry of the updated list stays at or below the old maximum
        assert(forall|idx: int| 0 <= idx < r.len() && idx != mi ==> #[trigger] r[idx] == l[idx]);
        assert(spec_max_dist(r) <= spec_max_dist(l));
        assert forall|d: int| #[trigger] has_dist(l, d) implies has_dist(r, d) || d >= spec_max_dist(
            r,
        ) by {
            let idx = choose|idx: int| 0 <= idx < l.len() && (#[trigger] l[idx]).dist2 == d;
            if idx != mi {
                assert(r[idx].dist2 == d);
                assert(has_dist(r, d));
            } else {
                assert(d == spec_max_dist(l));
            }
        }
    } else {
        assert(r == l);
    }
}

proof fn lemma_candidates_cover(s: Seq<PointState>, k: int, j: int, jj: int)
    requires
        0 <= k < s.len(),
        0 <= j <= s.len(),
        0 <= jj < j,
        jj != k,
    ensures
        has_dist(spec_candidates(s, k, j), spec_pair_dist(s, k, jj) as int) || (spec_candidates(
            s,
            k,
            j,
        ).len() >= NEIGHBOR_LIMIT && spec_pair_dist(s, k, jj) >= spec_max_dist(
            spec_candidates(s, k, j),
        )),
    decreases j,
{
    let prev = spec_candidates(s, k, j - 1);
    let cur = spec_candidates(s, k, j);
    lemma_candidates_len(s, k, j - 1);
    if jj == j - 1 {
        let nb = Neighbor { material: s[jj].material, dist2: spec_pair_dist(s, k, jj) };
        if prev.len() < NEIGHBOR_LIMIT {
            assert(cur == prev.push(nb));
            assert(cur[prev.len() as int] == nb);
            assert(has_dist(cur, nb.dist2 as int));
        } else {
            lemma_insert_full(prev, nb);
        }
    } else {
        lemma_candidates_cover(s, k, j - 1, jj);
        if j - 1 != k {
            let nb = Neighbor {
                material: s[j - 1].material,
                dist2: spec_dist2(s[k].point.position, s[j - 1].point.position) as i64,
            };
            let d = spec_pair_dist(s, k, jj) as int;
            if prev.len() < NEIGHBOR_LIMIT {
                // below the limit nothing is ever evicted, so the witness survives the push
                assert(cur == prev.push(nb));
                if has_dist(prev, d) {
                    let idx = choose|idx: int| 0 <= idx < prev.len() && (#[trigger] prev[idx]).dist2
                        == d;
                    assert(cur[idx].dist2 == d);
                    assert(has_dist(cur, d));
                }
            } else {
                lemma_insert_full(prev, nb);
            }
        }
    }
}

/// The recorded list is a five-nearest selection up to boundary ties: every
/// other point either has its squared distance to `k` recorded in `k`'s
/// list, or lies no closer than `k`'s farthest recorded neighbour.
pub proof fn lemma_five_closest_nearest(s: Seq<PointState>, k: int, j: int)
    requires
        0 <= k < s.len(),
        0 <= j < s.len(),
        j != k,
    ensures
        has_dist(spec_five_closest(s, k), spec_pair_dist(s, k, j) as int) || spec_pair_dist(
            s,
            k,
            j,
        ) >= spec_max_dist(spec_five_closest(s, k)),
{
    lemma_candidates_cover(s, k, s.len() as int, j);
}

/// Symmetry of the proximity computation: every entry among point `k`'s
/// recorded nearest neighbours stems from some other point `j`, carries
/// `j`'s pre-step material, and its squared distance is the same value the
/// pair yields read from `j`'s side.
pub proof fn lemma_proximity_symmetric(s: Seq<PointState>, k: int, idx: int)
    requires
        state_bounded(s),
        0 <= k < s.len(),
        0 <= idx < spec_five_closest(s, k).len(),
    ensures
        mutual_neighbor(s, k, spec_five_closest(s, k)[idx]),
{
    lemma_candidates_mutual(s, k, s.len() as int, idx);
}

} // verus!
