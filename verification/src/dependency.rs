use vstd::prelude::*;

verus! {

/// A set of density dependencies of a functional, kept as bit flags.
#[derive(Clone, Copy, Debug, PartialEq, Eq, Structural)]
pub struct Dependency {
    pub bits: u32,
}

impl Dependency {
    /// Bit of the density itself.
    pub const DENSITY_BIT: u32 = 1;
    /// Bit of the density gradient.
    pub const GRADIENT_BIT: u32 = 2;
    /// Bit of the density Laplacian.
    pub const LAPLACIAN_BIT: u32 = 4;
    /// Bit of the kinetic energy density.
    pub const KINETIC_BIT: u32 = 8;
    /// Bit of the paramagnetic current density.
    pub const JP_BIT: u32 = 16;

    pub fn density() -> (r: Dependency)
        ensures
            r.bits == Self::DENSITY_BIT,
    {
        Dependency { bits: Self::DENSITY_BIT }
    }

    pub fn gradient() -> (r: Dependency)
        ensures
            r.bits == Self::GRADIENT_BIT,
    {
        Dependency { bits: Self::GRADIENT_BIT }
    }

    pub fn laplacian() -> (r: Dependency)
        ensures
            r.bits == Self::LAPLACIAN_BIT,
    {
        Dependency { bits: Self::LAPLACIAN_BIT }
    }

    pub fn kinetic() -> (r: Dependency)
        ensures
            r.bits == Self::KINETIC_BIT,
    {
        Dependency { bits: Self::KINETIC_BIT }
    }

    pub fn jp() -> (r: Dependency)
        ensures
            r.bits == Self::JP_BIT,
    {
        Dependency { bits: Self::JP_BIT }
    }

    /// Every flag of `other` is set in `self`.
    pub open spec fn spec_contains(self, other: Dependency) -> bool {
        self.bits & other.bits == other.bits
    }

    pub fn contains(&self, other: Dependency) -> (r: bool)
        ensures
            r == self.spec_contains(other),
    {
        self.bits & other.bits == other.bits
    }

    pub open spec fn spec_union(self, other: Dependency) -> Dependency {
        Dependency { bits: self.bits | other.bits }
    }

    pub fn union(&self, other: Dependency) -> (r: Dependency)
        ensures
            r == self.spec_union(other),
    {
        Dependency { bits: self.bits | other.bits }
    }
}

} // verus!
