//! The proximity-rule engine: one synchronous automaton step.
//!
//! A step takes the current state as a read-only snapshot, finds for every
//! point its five nearest other points by squared Euclidean distance, tallies
//! the neighbour materials, and applies the transition table; all next
//! materials are computed from the pre-step snapshot alone, so no point's
//! transition can observe another point's already-updated material.

use vstd::prelude::*;
use vstd::pervasive::VecAdditionalExecFns;
use crate::geometry::{pos_bounded, spec_dist2, dist2};
use crate::material::{Material, NeighborTally, spec_transition, transition};
use crate::point::{PointState, state_bounded};

verus! {

/// How many nearest neighbours each point considers per step.
pub const NEIGHBOR_LIMIT: usize = 5;

/// One recorded nearest-neighbour candidate: the other point's material at
/// the pre-step snapshot and the squared distance of the pair.
#[derive(Clone, Copy, Debug, PartialEq, Eq, Structural)]
pub struct Neighbor {
    pub material: Material,
    pub dist2: i64,
}

/// Index of the first entry holding the largest recorded distance, scanning
/// from `i` with current champion `best`.
pub open spec fn spec_max_from(list: Seq<Neighbor>, i: int, best: int) -> int
    decreases list.len() - i,
{
    if 0 <= i < list.len() {
        spec_max_from(
            list,
            i + 1,
            if list[i].dist2 > list[best].dist2 {
                i
            } else {
                best
            },
        )
    } else {
        best
    }
}

/// Index of the first entry holding the largest recorded distance.
pub open spec fn spec_max_index(list: Seq<Neighbor>) -> int
    recommends
        list.len() >= 1,
{
    spec_max_from(list, 1, 0)
}

/// The first-max scan stays within the list.
pub proof fn lemma_max_from_in_range(list: Seq<Neighbor>, i: int, best: int)
    requires
        0 <= best < list.len(),
        0 <= i,
    ensures
        0 <= spec_max_from(list, i, best) < list.len(),
    decreases list.len() - i,
{
    if 0 <= i < list.len() {
        lemma_max_from_in_range(
            list,
            i + 1,
            if list[i].dist2 > list[best].dist2 {
                i
            } else {
                best
            },
        );
    }
}

/// The bounded best-five insertion: a list of fewer than five entries takes
/// the candidate unconditionally; a full list replaces its first
/// largest-distance entry when the candidate is strictly closer, and is
/// otherwise unchanged. Scanning always runs in point-index order, so the
/// tie-break among equal maxima is deterministic: the earliest-inserted
/// entry is the one replaced.
pub open spec fn spec_insert_closest(list: Seq<Neighbor>, nb: Neighbor) -> Seq<Neighbor> {
    if list.len() < NEIGHBOR_LIMIT {
        list.push(nb)
    } else {
        let mi = spec_max_index(list);
        if nb.dist2 < list[mi].dist2 {
            list.update(mi, nb)
        } else {
            list
        }
    }
}

/// Insertion grows a short list by one entry and leaves a full list at the
/// neighbour limit.
pub proof fn lemma_insert_closest_len(list: Seq<Neighbor>, nb: Neighbor)
    ensures
        spec_insert_closest(list, nb).len() == if list.len() < NEIGHBOR_LIMIT {
            list.len() + 1
        } else {
            list.len()
        },
{
    if list.len() >= NEIGHBOR_LIMIT {
        lemma_max_from_in_range(list, 1, 0);
    }
}

/// The best-five list for point `k` after the candidates with index below
/// `j` have been offered, in index order.
pub open spec fn spec_candidates(s: Seq<PointState>, k: int, j: int) -> Seq<Neighbor>
    decreases j,
{
    if j <= 0 {
        Seq::empty()
    } else {
        let prev = spec_candidates(s, k, j - 1);
        if j - 1 == k {
            prev
        } else {
            spec_insert_closest(
                prev,
                Neighbor {
                    material: s[j - 1].material,
                    dist2: spec_dist2(s[k].point.position, s[j - 1].point.position) as i64,
                },
            )
        }
    }
}

/// The final five-nearest-neighbour list of point `k`: every other point
/// offered once, in index order.
pub open spec fn spec_five_closest(s: Seq<PointState>, k: int) -> Seq<Neighbor> {
    spec_candidates(s, k, s.len() as int)
}

/// How many recorded neighbours hold material `m`.
pub open spec fn spec_count(list: Seq<Neighbor>, m: Material) -> nat
    decreases list.len(),
{
    if list.len() == 0 {
        0
    } else {
        spec_count(list.drop_last(), m) + if list.last().material == m {
            1nat
        } else {
            0nat
        }
    }
}

/// The three material counts of a neighbour list always sum to its length.
pub proof fn lemma_count_total(list: Seq<Neighbor>)
    ensures
        spec_count(list, Material::Dirt) + spec_count(list, Material::Grass) + spec_count(
            list,
            Material::Water,
        ) == list.len(),
    decreases list.len(),
{
    if list.len() > 0 {
        lemma_count_total(list.drop_last());
    }
}

/// The next material of point `k`: the transition table applied to its
/// pre-step material and the tally of its five nearest neighbours.
pub open spec fn spec_step_material(s: Seq<PointState>, k: int) -> Material {
    let ns = spec_five_closest(s, k);
    spec_transition(
        s[k].material,
        spec_count(ns, Material::Dirt),
        spec_count(ns, Material::Grass),
        spec_count(ns, Material::Water),
    )
}

/// One full synchronous step: every point keeps its position and identity
/// and takes the material the transition table assigns from the pre-step
/// snapshot.
pub open spec fn spec_step(s: Seq<PointState>) -> Seq<PointState> {
    Seq::new(
        s.len(),
        |k: int| PointState { point: s[k].point, material: spec_step_material(s, k) },
    )
}

/// The reset image of a state: the same points, every material `Dirt`.
pub open spec fn spec_reset(s: Seq<PointState>) -> Seq<PointState> {
    Seq::new(s.len(), |k: int| PointState { point: s[k].point, material: Material::Dirt })
}

/// Finds the first entry with the largest recorded distance.
fn find_max_index(list: &Vec<Neighbor>) -> (r: usize)
    requires
        list@.len() >= 1,
    ensures
        r < list@.len(),
        r as int == spec_max_index(list@),
{
    let mut best: usize = 0;
    let mut i: usize = 1;
    while i < list.len()
        invariant
            1 <= i <= list@.len(),
            best < i,
            spec_max_from(list@, i as int, best as int) == spec_max_index(list@),
        decreases list@.len() - i,
    {
        if list[i].dist2 > list[best].dist2 {
            best = i;
        }
        i += 1;
    }
    best
}

/// Offers one candidate to a point's bounded best-five list.
pub fn insert_closest(list: &mut Vec<Neighbor>, nb: Neighbor)
    ensures
        final(list)@ == spec_insert_closest(old(list)@, nb),
{
    if list.len() < NEIGHBOR_LIMIT {
        list.push(nb);
    } else {
        let mi = find_max_index(list);
        if nb.dist2 < list[mi].dist2 {
            list.set(mi, nb);
        }
    }
}

/// Computes point `k`'s five-nearest-neighbour list against the snapshot
/// `state`, offering every other point in index order.
pub fn five_closest(state: &Vec<PointState>, k: usize) -> (r: Vec<Neighbor>)
    requires
        state_bounded(state@),
        k < state@.len(),
    ensures
        r@ == spec_five_closest(state@, k as int),
{
    let mut acc: Vec<Neighbor> = Vec::new();
    let mut j: usize = 0;
    while j < state.len()
        invariant
            j <= state@.len(),
            k < state@.len(),
            state_bounded(state@),
            acc@ == spec_candidates(state@, k as int, j as int),
        decreases state@.len() - j,
    {
        if j != k {
            let d = dist2(&state[k].point.position, &state[j].point.position);
            insert_closest(&mut acc, Neighbor { material: state[j].material, dist2: d });
        }
        j += 1;
    }
    acc
}

/// Tallies the materials of one point's recorded neighbours; the counts sum
/// to the number of recorded neighbours.
pub fn tally_materials(list: &Vec<Neighbor>) -> (t: NeighborTally)
    ensures
        t.dirt == spec_count(list@, Material::Dirt),
        t.grass == spec_count(list@, Material::Grass),
        t.water == spec_count(list@, Material::Water),
        t.dirt + t.grass + t.water == list@.len(),
{
    let mut dirt: usize = 0;
    let mut grass: usize = 0;
    let mut water: usize = 0;
    let mut i: usize = 0;
    while i < list.len()
        invariant
            i <= list@.len(),
            dirt == spec_count(list@.take(i as int), Material::Dirt),
            grass == spec_count(list@.take(i as int), Material::Grass),
            water == spec_count(list@.take(i as int), Material::Water),
            dirt + grass + water == i,
        decreases list@.len() - i,
    {
        proof {
            assert(list@.take(i + 1).drop_last() =~= list@.take(i as int));
            assert(list@.take(i + 1).last() == list@[i as int]);
        }
        match list[i].material {
            Material::Dirt => {
                dirt = dirt + 1;
            },
            Material::Grass => {
                grass = grass + 1;
            },
            Material::Water => {
                water = water + 1;
            },
        }
        i += 1;
    }
    proof {
        assert(list@.take(list@.len() as int) =~= list@);
    }
    NeighborTally { dirt, grass, water }
}

/// Advances the automaton by one step. The result has exactly the input's
/// length, every point keeps its position and identity, and every next
/// material is the transition table's verdict on the pre-step snapshot.
pub fn step(state: &Vec<PointState>) -> (r: Vec<PointState>)
    requires
        state_bounded(state@),
    ensures
        r@ == spec_step(state@),
        r@.len() == state@.len(),
        forall|k: int| 0 <= k < state@.len() ==> (#[trigger] r@[k]).point == state@[k].point,
        forall|k: int|
            0 <= k < state@.len() ==> (#[trigger] r@[k]).material == spec_step_material(
                state@,
                k,
            ),
        state_bounded(r@),
{
    let mut next: Vec<PointState> = Vec::new();
    let mut k: usize = 0;
    while k < state.len()
        invariant
            k <= state@.len(),
            state_bounded(state@),
            next@.len() == k,
            forall|j: int| 0 <= j < k ==> next@[j] == spec_step(state@)[j],
        decreases state@.len() - k,
    {
        let ns = five_closest(state, k);
        let tally = tally_materials(&ns);
        let m = transition(state[k].material, &tally);
        next.push(PointState { point: state[k].point, material: m });
        k += 1;
    }
    proof {
        assert(next@ =~= spec_step(state@));
        assert forall|k: int| 0 <= k < state@.len() implies pos_bounded(
            #[trigger] next@[k].point.position,
        ) by {
            assert(next@[k].point == state@[k].point);
        }
    }
    next
}

/// Resets every point's material to `Dirt`, leaving positions, identities
/// and the point count untouched.
pub fn reset(state: &Vec<PointState>) -> (r: Vec<PointState>)
    ensures
        r@ == spec_reset(state@),
        r@.len() == state@.len(),
        forall|k: int| 0 <= k < state@.len() ==> (#[trigger] r@[k]).point == state@[k].point,
        forall|k: int|
            0 <= k < state@.len() ==> (#[trigger] r@[k]).material == Material::Dirt,
{
    let mut next: Vec<PointState> = Vec::new();
    let mut k: usize = 0;
    while k < state.len()
        invariant
            k <= state@.len(),
            next@.len() == k,
            forall|j: int| 0 <= j < k ==> next@[j] == spec_reset(state@)[j],
        decreases state@.len() - k,
    {
        next.push(PointState { point: state[k].point, material: Material::Dirt });
        k += 1;
    }
    proof {
        assert(next@ =~= spec_reset(state@));
    }
    next
}

} // verus!
