//! A cutoff, shifted electrostatic solver with a cheap incremental move cost.
use vstd::prelude::*;
use crate::vector::Vector3D;
use crate::pair::{PairPotential, PairRestriction, KERNEL_CUTOFF2_LIMIT};
use crate::system::{System, SystemModel, pair_energy_of, force_sum, compute_pair_energy, compute_pair_move_cost,
    compute_forces};
use crate::global::{GlobalPotential, GlobalCache, CoulombicPotential};

verus! {

/// Electrostatics truncated at a cutoff and shifted to vanish there: a real-space-only
/// sum whose move cost is computed from the pairs of the moved particles alone.
#[derive(Clone, Copy, Debug, PartialEq, Eq, Structural)]
pub struct CutoffCoulomb {
    pub cutoff2: i64,
    pub restriction: PairRestriction,
}

impl CutoffCoulomb {
    /// A solver with squared cutoff `cutoff2` and no restriction.
    pub fn new(cutoff2: i64) -> (r: CutoffCoulomb)
        ensures
            r.cutoff2 == cutoff2,
            r.restriction == PairRestriction::NoRestriction,
    {
        CutoffCoulomb { cutoff2, restriction: PairRestriction::NoRestriction }
    }

    /// The pair kernel of the solver.
    pub open spec fn kernel_spec(&self) -> PairPotential {
        PairPotential::ShiftedCoulomb { cutoff2: self.cutoff2 }
    }

    fn kernel(&self) -> (r: PairPotential)
        ensures
            r == self.kernel_spec(),
    {
        PairPotential::ShiftedCoulomb { cutoff2: self.cutoff2 }
    }
}

impl GlobalPotential for CutoffCoulomb {
    open spec fn wf(&self) -> bool {
        0 <= self.cutoff2 <= KERNEL_CUTOFF2_LIMIT
    }

    fn is_valid(&self) -> (r: bool) {
        0 <= self.cutoff2 && self.cutoff2 <= KERNEL_CUTOFF2_LIMIT
    }

    open spec fn energy_of(&self, s: SystemModel) -> int {
        pair_energy_of(self.kernel_spec(), self.restriction, s)
    }

    open spec fn force_of(&self, s: SystemModel, i: int) -> (int, int, int) {
        force_sum(self.kernel_spec(), self.restriction, s, i, s.len() as int)
    }

    fn forces(&self, system: &System) -> (r: Vec<Vector3D>) {
        compute_forces(&self.kernel(), &self.restriction, system)
    }

    fn energy(&self, system: &System) -> (r: i64) {
        compute_pair_energy(&self.kernel(), &self.restriction, system)
    }
}

impl GlobalCache for CutoffCoulomb {
    fn move_particles_cost(&self, system: &System, idxes: &[usize], newpos: &[Vector3D]) -> (r: i64) {
        compute_pair_move_cost(&self.kernel(), &self.restriction, system, idxes, newpos)
    }

    fn update(&mut self) {
    }
}

impl CoulombicPotential for CutoffCoulomb {
    open spec fn restriction_of(&self) -> PairRestriction {
        self.restriction
    }

    fn set_restriction(&mut self, restriction: PairRestriction) {
        self.restriction = restriction;
    }
}

} // verus!
