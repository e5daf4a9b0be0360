//! Incremental energy evaluation for Monte Carlo sampling of particle systems.
//!
//! Lengths, charges and energies are fixed-point integers, so that every sum is
//! exact: the cost of a move computed incrementally equals the difference of two
//! full evaluations, not merely approximates it.
//!
//! - `vector`: positions, the periodic cell and minimum-image distances.
//! - `pair`: pairwise potentials and pair restrictions.
//! - `sums`: sums over pairs of particles and how one moved particle changes them.
//! - `system`: the particle system, its pairwise energy, move and insertion costs, forces.
//! - `global`: potentials acting on the whole system, and their move cost strategies.
//! - `field`, `coulomb`: an external field and a cutoff electrostatic solver.
//! - `cache`: the energy cache, with cost, commit and rollback of moves.
//! - `reciprocal`: an aggregate structure factor kept in step with moved particles.
//! - `montecarlo`: weighted move selection and the Metropolis criterion.
pub mod vector;
pub mod sums;
pub mod pair;
pub mod system;
pub mod global;
pub mod field;
pub mod coulomb;
pub mod cache;
pub mod montecarlo;
pub mod reciprocal;
