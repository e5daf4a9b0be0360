//! Potentials acting on the whole system at once, and the cost of moving particles
//! under each of them.
use vstd::prelude::*;
use crate::vector::Vector3D;
use crate::pair::PairRestriction;
use crate::system::{System, SystemModel};

verus! {

/// Largest magnitude of the energy of a global potential.
pub const GLOBAL_LIMIT: i64 = 1152921504606846976;

/// A potential acting on the whole system at once.
pub trait GlobalPotential {
    /// The parameters of the potential are usable.
    spec fn wf(&self) -> bool;

    /// Whether the parameters of the potential are usable.
    fn is_valid(&self) -> (r: bool)
        ensures
            r == self.wf(),
    ;

    /// The energy of this potential for the system `s`.
    spec fn energy_of(&self, s: SystemModel) -> int;

    /// The force this potential exerts on particle `i` of the system `s`.
    spec fn force_of(&self, s: SystemModel, i: int) -> (int, int, int);

    /// Compute the force contribution of this potential on every particle.
    fn forces(&self, system: &System) -> (r: Vec<Vector3D>)
        requires
            self.wf(),
            system@.wf(),
        ensures
            r@.len() == system@.len(),
            forall|i: int|
                0 <= i < r@.len() ==> ((#[trigger] r@[i]).x as int, r@[i].y as int, r@[i].z as int) == self.force_of(
                    system@,
                    i,
                ),
    ;

    /// Compute the energetic contribution of this potential.
    fn energy(&self, system: &System) -> (r: i64)
        requires
            self.wf(),
            system@.wf(),
        ensures
            r == self.energy_of(system@),
            -GLOBAL_LIMIT <= r <= GLOBAL_LIMIT,
    ;
}

/// The cost of moving particles under a global potential.
pub trait GlobalCache: GlobalPotential {
    /// The change of energy when the particles `idxes` of `system` are placed at
    /// `newpos`, without changing `system`.
    fn move_particles_cost(&self, system: &System, idxes: &[usize], newpos: &[Vector3D]) -> (r: i64)
        requires
            self.wf(),
            system@.wf(),
            system@.valid_move(idxes@, newpos@),
        ensures
            r == self.energy_of(system@.moved(idxes@, newpos@)) - self.energy_of(system@),
            -GLOBAL_LIMIT <= self.energy_of(system@.moved(idxes@, newpos@)) <= GLOBAL_LIMIT,
    ;

    /// Acknowledge that the move last costed was accepted. The energy the
    /// potential gives to any system stays the same.
    fn update(&mut self)
        requires
            old(self).wf(),
        ensures
            final(self).wf(),
            forall|s: SystemModel| #[trigger] final(self).energy_of(s) == old(self).energy_of(s),
    ;
}

/// Marker for the default cost strategy: evaluate the whole energy of a copy of
/// the system before and after the move. Correct for any potential, but as slow as a
/// full evaluation for every trial.
pub trait DefaultGlobalCache {}

impl<T: DefaultGlobalCache + GlobalPotential> GlobalCache for T {
    fn move_particles_cost(&self, system: &System, idxes: &[usize], newpos: &[Vector3D]) -> (r: i64) {
        let mut moved = system.duplicate();
        let old_e = self.energy(&moved);
        moved.move_particles(idxes, newpos);
        let new_e = self.energy(&moved);
        new_e - old_e
    }

    fn update(&mut self) {
    }
}

/// Electrostatic solvers, which follow a pair restriction like the rest of the system.
pub trait CoulombicPotential: GlobalPotential {
    /// The restriction in use.
    spec fn restriction_of(&self) -> PairRestriction;

    /// Use `restriction` for every later energy evaluation.
    fn set_restriction(&mut self, restriction: PairRestriction)
        requires
            old(self).wf(),
        ensures
            final(self).wf(),
            final(self).restriction_of() == restriction,
    ;
}

} // verus!
