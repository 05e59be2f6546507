//! The three point materials, the per-step transition table, and the
//! material cycle used by the pointer interaction.

use vstd::prelude::*;

verus! {

/// The discrete state of a point. Only equality is meaningful; there is no
/// ordering among materials.
#[derive(Clone, Copy, Debug, PartialEq, Eq, Structural)]
pub enum Material {
    Dirt,
    Grass,
    Water,
}

impl Default for Material {
    /// Every point starts as `Dirt`.
    fn default() -> (r: Material)
        ensures
            r == Material::Dirt,
    {
        Material::Dirt
    }
}

/// Counts of each material among one point's nearest neighbours,
/// recomputed every step.
#[derive(Clone, Copy, Debug, PartialEq, Eq, Structural)]
pub struct NeighborTally {
    pub dirt: usize,
    pub grass: usize,
    pub water: usize,
}

/// The transition table, in priority order; where no condition matches the
/// material stays unchanged.
pub open spec fn spec_transition(m: Material, dirt: nat, grass: nat, water: nat) -> Material {
    match m {
        Material::Dirt => if grass >= 1 {
            Material::Grass
        } else if water >= 2 {
            Material::Water
        } else {
            Material::Dirt
        },
        Material::Grass => if water >= 2 {
            Material::Water
        } else if dirt >= 4 {
            Material::Dirt
        } else {
            Material::Grass
        },
        Material::Water => if dirt >= 3 {
            Material::Dirt
        } else {
            Material::Water
        },
    }
}

/// Applies the transition table to one point's current material and its
/// neighbour tally, returning the material for the next step.
pub fn transition(m: Material, tally: &NeighborTally) -> (r: Material)
    ensures
        r == spec_transition(m, tally.dirt as nat, tally.grass as nat, tally.water as nat),
{
    match m {
        Material::Dirt => if tally.grass >= 1 {
            Material::Grass
        } else if tally.water >= 2 {
            Material::Water
        } else {
            Material::Dirt
        },
        Material::Grass => if tally.water >= 2 {
            Material::Water
        } else if tally.dirt >= 4 {
            Material::Dirt
        } else {
            Material::Grass
        },
        Material::Water => if tally.dirt >= 3 {
            Material::Dirt
        } else {
            Material::Water
        },
    }
}

/// The cycle the pointer interaction walks when previewing or setting a
/// point's material by hand.
pub open spec fn spec_next_material(m: Material) -> Material {
    match m {
        Material::Dirt => Material::Grass,
        Material::Grass => Material::Water,
        Material::Water => Material::Dirt,
    }
}

/// Returns the material that follows `m` in the interaction cycle
/// `Dirt -> Grass -> Water -> Dirt`.
pub fn next_material(m: Material) -> (r: Material)
    ensures
        r == spec_next_material(m),
{
    match m {
        Material::Dirt => Material::Grass,
        Material::Grass => Material::Water,
        Material::Water => Material::Dirt,
    }
}

} // verus!
