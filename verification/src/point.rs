//! The point data model: a fixed position with a stable identity, paired
//! with one mutable material.

use vstd::prelude::*;
use crate::geometry::{Pos3, pos_bounded};
use crate::material::Material;

verus! {

/// A fixed location on the unit sphere with a stable identity; immutable
/// after generation.
#[derive(Clone, Copy, Debug, PartialEq, Eq, Structural)]
pub struct Point {
    pub position: Pos3,
    pub id: usize,
}

/// One point of the simulation together with its current material; the full
/// simulation state is the ordered collection of these.
#[derive(Clone, Copy, Debug, PartialEq, Eq, Structural)]
pub struct PointState {
    pub point: Point,
    pub material: Material,
}

/// Every position in the state lies within the unit coordinate range; the
/// generator establishes this and steps preserve it.
pub open spec fn state_bounded(s: Seq<PointState>) -> bool {
    forall|k: int| 0 <= k < s.len() ==> pos_bounded(#[trigger] s[k].point.position)
}

} // verus!
