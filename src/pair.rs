//! Pairwise potentials and the restriction policy that decides which pairs interact.
use vstd::prelude::*;

verus! {

/// Largest magnitude of the energy of one pair.
pub const PAIR_LIMIT: i64 = 1073741824;

/// Largest magnitude of a particle's charge.
pub const CHARGE_LIMIT: i64 = 64;

/// Largest squared cutoff of a soft or coulombic kernel.
pub const KERNEL_CUTOFF2_LIMIT: i64 = 262144;

/// Largest magnitude of the stiffness of a soft kernel.
pub const STIFFNESS_LIMIT: i64 = 4096;

/// A pairwise potential: energy of two particles as a function of their squared
/// distance (and, for the coulombic kernel, of their charges).
#[derive(Clone, Copy, Debug, PartialEq, Eq, Structural)]
pub enum PairPotential {
    /// No interaction.
    Null,
    /// `repulsion` inside `sigma2`, `-depth` inside `cutoff2`, zero beyond.
    SquareWell { sigma2: i64, cutoff2: i64, repulsion: i64, depth: i64 },
    /// `stiffness * (cutoff2 - r2)` inside `cutoff2`, zero beyond: vanishes at the cutoff.
    Soft { stiffness: i64, cutoff2: i64 },
    /// `qi * qj * (cutoff2 - r2)` inside `cutoff2`, zero beyond: a charge kernel shifted
    /// so that it vanishes continuously at the cutoff.
    ShiftedCoulomb { cutoff2: i64 },
}

impl PairPotential {
    /// The parameters keep every pair energy within `PAIR_LIMIT`.
    pub open spec fn wf(&self) -> bool {
        match *self {
            PairPotential::Null => true,
            PairPotential::SquareWell { sigma2, cutoff2, repulsion, depth } => -PAIR_LIMIT
                <= repulsion <= PAIR_LIMIT && -PAIR_LIMIT <= depth <= PAIR_LIMIT,
            PairPotential::Soft { stiffness, cutoff2 } => -STIFFNESS_LIMIT <= stiffness
                <= STIFFNESS_LIMIT && 0 <= cutoff2 <= KERNEL_CUTOFF2_LIMIT,
            PairPotential::ShiftedCoulomb { cutoff2 } => 0 <= cutoff2 <= KERNEL_CUTOFF2_LIMIT,
        }
    }

    /// Energy of a pair with charges `qi`, `qj` at squared distance `r2`.
    pub open spec fn energy_spec(&self, qi: int, qj: int, r2: int) -> int {
        match *self {
            PairPotential::Null => 0,
            PairPotential::SquareWell { sigma2, cutoff2, repulsion, depth } => if r2 < sigma2 {
                repulsion as int
            } else if r2 < cutoff2 {
                -depth
            } else {
                0
            },
            PairPotential::Soft { stiffness, cutoff2 } => if r2 < cutoff2 {
                stiffness * (cutoff2 - r2)
            } else {
                0
            },
            PairPotential::ShiftedCoulomb { cutoff2 } => if r2 < cutoff2 {
                qi * qj * (cutoff2 - r2)
            } else {
                0
            },
        }
    }

    pub proof fn lemma_energy(&self, qi: int, qj: int, r2: int)
        requires
            self.wf(),
            -CHARGE_LIMIT <= qi <= CHARGE_LIMIT,
            -CHARGE_LIMIT <= qj <= CHARGE_LIMIT,
            0 <= r2,
        ensures
            self.energy_spec(qi, qj, r2) == self.energy_spec(qj, qi, r2),
            -PAIR_LIMIT <= self.energy_spec(qi, qj, r2) <= PAIR_LIMIT,
    {
        match *self {
            PairPotential::Null => {},
            PairPotential::SquareWell { .. } => {},
            PairPotential::Soft { stiffness, cutoff2 } => {
                if r2 < cutoff2 {
                    assert(-PAIR_LIMIT <= stiffness * (cutoff2 - r2) <= PAIR_LIMIT)
                        by (nonlinear_arith)
                        requires
                            -4096 <= stiffness <= 4096,
                            0 < cutoff2 - r2 <= 262144,
                    ;
                }
            },
            PairPotential::ShiftedCoulomb { cutoff2 } => {
                if r2 < cutoff2 {
                    assert(qi * qj == qj * qi) by (nonlinear_arith);
                    assert(-4096 <= qi * qj <= 4096) by (nonlinear_arith)
                        requires
                            -64 <= qi <= 64,
                            -64 <= qj <= 64,
                    ;
                    assert(-PAIR_LIMIT <= (qi * qj) * (cutoff2 - r2) <= PAIR_LIMIT)
                        by (nonlinear_arith)
                        requires
                            -4096 <= qi * qj <= 4096,
                            0 < cutoff2 - r2 <= 262144,
                    ;
                }
            },
        }
    }

    /// The factor `c` of the force `2 * c * (ri - rj)` that particle `j` exerts on
    /// particle `i` at squared distance `r2`: minus the derivative of the energy with
    /// respect to `r2`. The steps of the square well exert no force.
    pub open spec fn force_factor_spec(&self, qi: int, qj: int, r2: int) -> int {
        match *self {
            PairPotential::Soft { stiffness, cutoff2 } => if r2 < cutoff2 {
                stiffness as int
            } else {
                0
            },
            PairPotential::ShiftedCoulomb { cutoff2 } => if r2 < cutoff2 {
                qi * qj
            } else {
                0
            },
            _ => 0,
        }
    }

    /// The force factor of a pair with charges `qi`, `qj` at squared distance `r2`.
    pub fn force_factor(&self, qi: i64, qj: i64, r2: i64) -> (r: i64)
        requires
            self.wf(),
            -CHARGE_LIMIT <= qi <= CHARGE_LIMIT,
            -CHARGE_LIMIT <= qj <= CHARGE_LIMIT,
        ensures
            r == self.force_factor_spec(qi as int, qj as int, r2 as int),
            -STIFFNESS_LIMIT <= r <= STIFFNESS_LIMIT,
            r != 0 ==> r2 < KERNEL_CUTOFF2_LIMIT,
    {
        match *self {
            PairPotential::Soft { stiffness, cutoff2 } => {
                if r2 < cutoff2 {
                    stiffness
                } else {
                    0
                }
            },
            PairPotential::ShiftedCoulomb { cutoff2 } => {
                if r2 < cutoff2 {
                    assert(-4096 <= qi * qj <= 4096) by (nonlinear_arith)
                        requires
                            -64 <= qi <= 64,
                            -64 <= qj <= 64,
                    ;
                    qi * qj
                } else {
                    0
                }
            },
            _ => 0,
        }
    }

    /// Energy of a pair with charges `qi`, `qj` at squared distance `r2`.
    pub fn energy(&self, qi: i64, qj: i64, r2: i64) -> (r: i64)
        requires
            self.wf(),
            0 <= r2,
            -CHARGE_LIMIT <= qi <= CHARGE_LIMIT,
            -CHARGE_LIMIT <= qj <= CHARGE_LIMIT,
        ensures
            r == self.energy_spec(qi as int, qj as int, r2 as int),
            -PAIR_LIMIT <= r <= PAIR_LIMIT,
    {
        proof {
            self.lemma_energy(qi as int, qj as int, r2 as int);
        }
        match *self {
            PairPotential::Null => 0,
            PairPotential::SquareWell { sigma2, cutoff2, repulsion, depth } => {
                if r2 < sigma2 {
                    repulsion
                } else if r2 < cutoff2 {
                    -depth
                } else {
                    0
                }
            },
            PairPotential::Soft { stiffness, cutoff2 } => {
                if r2 < cutoff2 {
                    stiffness * (cutoff2 - r2)
                } else {
                    0
                }
            },
            PairPotential::ShiftedCoulomb { cutoff2 } => {
                if r2 < cutoff2 {
                    assert(-4096 <= qi * qj <= 4096) by (nonlinear_arith)
                        requires
                            -64 <= qi <= 64,
                            -64 <= qj <= 64,
                    ;
                    qi * qj * (cutoff2 - r2)
                } else {
                    0
                }
            },
        }
    }
}

/// Which pairs of particles interact, by the molecules they belong to.
#[derive(Clone, Copy, Debug, PartialEq, Eq, Structural)]
pub enum PairRestriction {
    /// Every pair interacts.
    NoRestriction,
    /// Only pairs in different molecules interact.
    InterMolecular,
    /// Only pairs in the same molecule interact.
    IntraMolecular,
    /// Every pair interacts but those joined by a bond.
    Exclude12,
}

impl PairRestriction {
    pub open spec fn excludes_spec(&self, mi: u32, mj: u32, bonded: bool) -> bool {
        match *self {
            PairRestriction::NoRestriction => false,
            PairRestriction::InterMolecular => mi == mj,
            PairRestriction::IntraMolecular => mi != mj,
            PairRestriction::Exclude12 => bonded,
        }
    }

    /// Whether a pair of particles in molecules `mi` and `mj`, joined by a bond or
    /// not, is left out.
    pub fn excludes(&self, mi: u32, mj: u32, bonded: bool) -> (r: bool)
        ensures
            r == self.excludes_spec(mi, mj, bonded),
    {
        match *self {
            PairRestriction::NoRestriction => false,
            PairRestriction::InterMolecular => mi == mj,
            PairRestriction::IntraMolecular => mi != mj,
            PairRestriction::Exclude12 => bonded,
        }
    }
}

} // verus!
