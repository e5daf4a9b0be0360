use lumol::cache::{CacheError, EnergyCache};
use lumol::coulomb::CutoffCoulomb;
use lumol::field::ExternalField;
use lumol::global::{CoulombicPotential, GlobalCache, GlobalPotential};
use lumol::pair::{PairPotential, PairRestriction};
use lumol::system::{compute_pair_energy, compute_pair_move_cost, System, SystemError, MAX_PARTICLES};
use lumol::vector::{dist2, UnitCell, Vector3D};

fn v(x: i64, y: i64, z: i64) -> Vector3D {
    Vector3D::new(x, y, z)
}

fn soft() -> PairPotential {
    PairPotential::Soft { stiffness: 2, cutoff2: 100 }
}

fn three_particles(pair: PairPotential) -> System {
    let mut system = System::new(pair, PairRestriction::NoRestriction);
    system.add_particle(v(0, 0, 0), 0, 1).unwrap();
    system.add_particle(v(3, 0, 0), 0, -1).unwrap();
    system.add_particle(v(0, 4, 0), 1, 2).unwrap();
    system
}

fn field() -> ExternalField {
    ExternalField::new(v(1, 2, 3))
}

fn full_energy<G: GlobalPotential>(system: &System, g: &G) -> i64 {
    EnergyCache::new(system, g).total()
}

#[test]
fn squared_distance() {
    assert_eq!(dist2(&v(1, 2, 3), &v(4, 6, 3)), 25);
    assert_eq!(dist2(&v(-5, 0, 0), &v(5, 0, 0)), 100);
}

#[test]
fn pair_potential_values() {
    let well = PairPotential::SquareWell { sigma2: 4, cutoff2: 16, repulsion: 1000, depth: 7 };
    assert_eq!(well.energy(0, 0, 1), 1000);
    assert_eq!(well.energy(0, 0, 9), -7);
    assert_eq!(well.energy(0, 0, 16), 0);
    assert_eq!(soft().energy(0, 0, 9), 182);
    assert_eq!(soft().energy(0, 0, 100), 0);
    let coulomb = PairPotential::ShiftedCoulomb { cutoff2: 100 };
    assert_eq!(coulomb.energy(2, -3, 36), -384);
    assert_eq!(PairPotential::Null.energy(5, 5, 0), 0);
}

#[test]
fn minimum_image_distance() {
    let cubic = UnitCell::Orthorhombic { a: 10, b: 10, c: 10 };
    assert_eq!(cubic.dist2(&v(1, 0, 0), &v(9, 0, 0)), 4);
    assert_eq!(cubic.dist2(&v(9, 0, 0), &v(1, 0, 0)), 4);
    assert_eq!(cubic.dist2(&v(5, 0, 0), &v(0, 0, 0)), 25);
    assert_eq!(cubic.dist2(&v(0, 0, 0), &v(5, 0, 0)), 25);
    assert_eq!(cubic.dist2(&v(0, 0, 0), &v(23, -18, 4)), 9 + 4 + 16);
    let odd = UnitCell::Orthorhombic { a: 7, b: 7, c: 100 };
    assert_eq!(odd.dist2(&v(3, 0, 0), &v(0, 0, 0)), 9);
    assert_eq!(odd.dist2(&v(0, 0, 0), &v(3, 0, 0)), 9);
    assert_eq!(odd.dist2(&v(0, 0, 0), &v(4, 0, 0)), 9);
    assert_eq!(UnitCell::Infinite.dist2(&v(0, 0, 0), &v(9, 0, 0)), 81);
}

#[test]
fn periodic_system_energy_and_move_cost() {
    let mut system = three_particles(soft());
    system.set_cell(UnitCell::Orthorhombic { a: 10, b: 10, c: 10 });
    assert_eq!(system.pair_energy(), 182 + 168 + 150);
    let g = field();
    let mut cache = EnergyCache::new(&system, &g);
    let cost = cache.move_particles_cost(&system, &g, &[2], &[v(0, 0, 9)]);
    let mut moved = system.duplicate();
    moved.move_particles(&[2], &[v(0, 0, 9)]);
    assert_eq!(moved.pair_energy(), 182 + 198 + 180);
    assert_eq!(cost, full_energy(&moved, &g) - full_energy(&system, &g));
}

#[test]
fn restriction_policy() {
    assert!(!PairRestriction::NoRestriction.excludes(1, 1, false));
    assert!(PairRestriction::InterMolecular.excludes(1, 1, false));
    assert!(!PairRestriction::InterMolecular.excludes(1, 2, false));
    assert!(PairRestriction::IntraMolecular.excludes(1, 2, false));
    assert!(!PairRestriction::IntraMolecular.excludes(2, 2, false));
}

#[test]
fn pair_energy_from_scratch() {
    let system = three_particles(soft());
    assert_eq!(system.pair_energy(), 182 + 168 + 150);
    let mut restricted = three_particles(soft());
    restricted.restriction = PairRestriction::InterMolecular;
    assert_eq!(restricted.pair_energy(), 168 + 150);
    let empty = System::new(soft(), PairRestriction::NoRestriction);
    assert_eq!(empty.pair_energy(), 0);
}

#[test]
fn field_energy() {
    let system = three_particles(soft());
    assert_eq!(field().energy(&system), 13);
}

#[test]
fn coulomb_energy_and_restriction() {
    let system = three_particles(PairPotential::Null);
    let mut coulomb = CutoffCoulomb::new(100);
    assert_eq!(coulomb.energy(&system), -73);
    coulomb.set_restriction(PairRestriction::InterMolecular);
    assert_eq!(coulomb.energy(&system), 18);
}

#[test]
fn default_cost_matches_full_recompute() {
    let system = three_particles(soft());
    let g = field();
    assert_eq!(g.move_particles_cost(&system, &[2], &[v(0, 0, 5)]), 27 - 13);
    assert_eq!(system.positions[2], v(0, 4, 0));
}

#[test]
fn specialised_cost_matches_full_recompute() {
    let system = three_particles(PairPotential::Null);
    let coulomb = CutoffCoulomb::new(100);
    assert_eq!(coulomb.move_particles_cost(&system, &[1], &[v(1, 0, 0)]), -24);
    assert_eq!(coulomb.move_particles_cost(&system, &[2], &[v(0, 0, 5)]), 0);
}

#[test]
fn pair_move_cost_counts_moved_pairs_once() {
    let system = three_particles(soft());
    let idxes = [0, 1];
    let newpos = [v(1, 1, 1), v(2, 0, 0)];
    let cost = compute_pair_move_cost(&system.pair, &system.restriction, &system, &idxes, &newpos);
    let mut moved = system.duplicate();
    moved.move_particles(&idxes, &newpos);
    let after = compute_pair_energy(&system.pair, &system.restriction, &moved);
    assert_eq!(cost, after - system.pair_energy());
}

#[test]
fn cache_cost_of_single_move() {
    let system = three_particles(soft());
    let g = field();
    let mut cache = EnergyCache::new(&system, &g);
    assert_eq!(cache.total(), 513);
    let cost = cache.move_particles_cost(&system, &g, &[2], &[v(0, 0, 5)]);
    assert_eq!(cost, 491 - 513);
    assert_eq!(cache.total(), 513);
}

#[test]
fn cache_cost_equals_difference_of_full_energies() {
    let system = three_particles(soft());
    let g = field();
    let mut cache = EnergyCache::new(&system, &g);
    let idxes = [0, 2, 0];
    let newpos = [v(1, 1, 1), v(-2, 3, 1), v(2, -1, 0)];
    let cost = cache.move_particles_cost(&system, &g, &idxes, &newpos);
    let mut moved = system.duplicate();
    moved.move_particles(&idxes, &newpos);
    assert_eq!(moved.positions[0], v(2, -1, 0));
    assert_eq!(cost, full_energy(&moved, &g) - full_energy(&system, &g));
}

#[test]
fn commit_matches_full_recompute() {
    let mut system = three_particles(soft());
    let mut g = field();
    let mut cache = EnergyCache::new(&system, &g);
    let cost = cache.move_particles_cost(&system, &g, &[2], &[v(0, 0, 5)]);
    assert_eq!(cache.update(&mut system, &mut g, &[2], &[v(0, 0, 5)]), Ok(()));
    assert_eq!(system.positions[2], v(0, 0, 5));
    assert_eq!(cache.total(), 513 + cost);
    assert_eq!(cache.total(), full_energy(&system, &g));
    assert_eq!(cache.total(), 491);
}

#[test]
fn commit_with_specialised_solver() {
    let mut system = three_particles(soft());
    let mut coulomb = CutoffCoulomb::new(100);
    let mut cache = EnergyCache::new(&system, &coulomb);
    assert_eq!(cache.total(), 500 - 73);
    cache.move_particles_cost(&system, &coulomb, &[1], &[v(1, 0, 0)]);
    assert_eq!(cache.update(&mut system, &mut coulomb, &[1], &[v(1, 0, 0)]), Ok(()));
    assert_eq!(cache.total(), full_energy(&system, &coulomb));
    assert_eq!(coulomb.energy(&system), -97);
}

#[test]
fn discard_matches_full_recompute() {
    let mut system = three_particles(soft());
    let mut g = field();
    let mut cache = EnergyCache::new(&system, &g);
    cache.move_particles_cost(&system, &g, &[0, 1], &[v(5, 5, 5), v(-1, -1, -1)]);
    cache.discard();
    assert_eq!(cache.total(), full_energy(&system, &g));
    assert_eq!(cache.update(&mut system, &mut g, &[0, 1], &[v(5, 5, 5), v(-1, -1, -1)]), Err(CacheError::CacheInconsistency));
}

#[test]
fn rejection_leaves_no_trace() {
    let mut system = three_particles(soft());
    let mut g = field();
    let mut cache = EnergyCache::new(&system, &g);
    let before = system.duplicate();
    let total = cache.total();
    cache.move_particles_cost(&system, &g, &[1], &[v(7, 7, 7)]);
    cache.discard();
    assert_eq!(system.positions, before.positions);
    assert_eq!(cache.total(), total);
    cache.move_particles_cost(&system, &g, &[1], &[v(7, 7, 7)]);
    assert_eq!(cache.update(&mut system, &mut g, &[1], &[v(7, 7, 8)]), Err(CacheError::CacheInconsistency));
    assert_eq!(system.positions, before.positions);
    assert_eq!(cache.total(), total);
}

#[test]
fn update_without_cost_is_refused() {
    let mut system = three_particles(soft());
    let mut g = field();
    let mut cache = EnergyCache::new(&system, &g);
    assert_eq!(cache.update(&mut system, &mut g, &[0], &[v(1, 0, 0)]), Err(CacheError::CacheInconsistency));
    assert_eq!(system.positions[0], v(0, 0, 0));
}

#[test]
fn update_twice_is_refused() {
    let mut system = three_particles(soft());
    let mut g = field();
    let mut cache = EnergyCache::new(&system, &g);
    cache.move_particles_cost(&system, &g, &[0], &[v(1, 0, 0)]);
    assert_eq!(cache.update(&mut system, &mut g, &[0], &[v(1, 0, 0)]), Ok(()));
    assert_eq!(cache.update(&mut system, &mut g, &[0], &[v(1, 0, 0)]), Err(CacheError::CacheInconsistency));
}

#[test]
fn add_particle_errors() {
    let mut system = System::new(soft(), PairRestriction::NoRestriction);
    assert_eq!(system.add_particle(v(1 << 40, 0, 0), 0, 0), Err(SystemError::OutOfRange));
    assert_eq!(system.add_particle(v(0, 0, 0), 0, 65), Err(SystemError::OutOfRange));
    assert_eq!(system.size(), 0);
    for i in 0..MAX_PARTICLES {
        assert_eq!(system.add_particle(v(i as i64, 0, 0), 0, 0), Ok(()));
    }
    assert_eq!(system.add_particle(v(0, 0, 0), 0, 0), Err(SystemError::TooManyParticles));
    assert_eq!(system.size(), MAX_PARTICLES);
}

#[test]
fn insertion_cost_matches_full_recompute() {
    let system = three_particles(soft());
    let g = field();
    let cache = EnergyCache::new(&system, &g);
    let cost = cache.particle_insertion_cost(&system, &g, &v(0, 0, 3), 2, 1);
    assert_eq!(cost, 182 + 164 + 150 + 9);
    let mut bigger = system.duplicate();
    bigger.add_particle(v(0, 0, 3), 2, 1).unwrap();
    assert_eq!(cost, full_energy(&bigger, &g) - full_energy(&system, &g));
    assert_eq!(system.size(), 3);
}

#[test]
fn insertion_cost_follows_restriction() {
    let mut system = three_particles(soft());
    system.restriction = PairRestriction::InterMolecular;
    let coulomb = CutoffCoulomb::new(100);
    let cache = EnergyCache::new(&system, &coulomb);
    let cost = cache.particle_insertion_cost(&system, &coulomb, &v(0, 0, 3), 1, 1);
    let mut bigger = system.duplicate();
    bigger.add_particle(v(0, 0, 3), 1, 1).unwrap();
    assert_eq!(cost, 182 + 164 + 91 - 82 + 150);
    assert_eq!(cost, full_energy(&bigger, &coulomb) - full_energy(&system, &coulomb));
}

#[test]
fn pair_forces() {
    let system = three_particles(soft());
    let forces = system.forces();
    assert_eq!(forces, vec![v(-12, -16, 0), v(24, -16, 0), v(-12, 32, 0)]);
    let sum = forces.iter().fold((0, 0, 0), |acc, f| (acc.0 + f.x, acc.1 + f.y, acc.2 + f.z));
    assert_eq!(sum, (0, 0, 0));
}

#[test]
fn forces_follow_cell_and_restriction() {
    let mut system = three_particles(soft());
    system.restriction = PairRestriction::InterMolecular;
    assert_eq!(system.forces(), vec![v(0, -16, 0), v(12, -16, 0), v(-12, 32, 0)]);
    let mut periodic = three_particles(PairPotential::ShiftedCoulomb { cutoff2: 100 });
    periodic.set_cell(UnitCell::Orthorhombic { a: 10, b: 10, c: 10 });
    periodic.move_particles(&[1], &[v(8, 0, 0)]);
    let forces = periodic.forces();
    assert_eq!(forces[0], v(2 * -1 * 2 + 0, 2 * 2 * -4, 0));
    let well = three_particles(PairPotential::SquareWell { sigma2: 4, cutoff2: 16, repulsion: 10, depth: 3 });
    assert_eq!(well.forces(), vec![v(0, 0, 0); 3]);
}

#[test]
fn validity_checks() {
    let mut system = three_particles(soft());
    assert!(system.is_valid());
    system.set_cell(UnitCell::Orthorhombic { a: 0, b: 10, c: 10 });
    assert!(!system.is_valid());
    system.set_cell(UnitCell::Orthorhombic { a: 10, b: 10, c: 10 });
    assert!(system.is_valid());
    system.positions[1] = v(0, 0, 1 << 35);
    assert!(!system.is_valid());
    let bad = three_particles(PairPotential::Soft { stiffness: 5000, cutoff2: 10 });
    assert!(!bad.is_valid());
    assert!(field().is_valid());
    assert!(!ExternalField::new(v(65, 0, 0)).is_valid());
    assert!(CutoffCoulomb::new(100).is_valid());
    assert!(!CutoffCoulomb::new(-1).is_valid());
}

#[test]
fn bonds_and_bonded_exclusion() {
    let mut system = three_particles(soft());
    assert_eq!(system.add_bond(0, 3), Err(SystemError::InvalidTopology));
    assert_eq!(system.add_bond(7, 1), Err(SystemError::InvalidTopology));
    assert!(system.bonds.is_empty());
    assert_eq!(system.add_bond(1, 0), Ok(()));
    assert!(system.are_bonded(0, 1));
    assert!(system.are_bonded(1, 0));
    assert!(!system.are_bonded(0, 2));
    assert_eq!(system.pair_energy(), 182 + 168 + 150);
    system.restriction = PairRestriction::Exclude12;
    assert!(PairRestriction::Exclude12.excludes(0, 1, true));
    assert!(!PairRestriction::Exclude12.excludes(0, 0, false));
    assert_eq!(system.pair_energy(), 168 + 150);
    assert_eq!(system.forces()[0], v(0, -16, 0));
    let g = field();
    let mut cache = EnergyCache::new(&system, &g);
    let cost = cache.move_particles_cost(&system, &g, &[0], &[v(1, 1, 0)]);
    let mut moved = system.duplicate();
    moved.move_particles(&[0], &[v(1, 1, 0)]);
    assert_eq!(cost, full_energy(&moved, &g) - full_energy(&system, &g));
    let insertion = cache.particle_insertion_cost(&system, &g, &v(0, 0, 3), 0, 0);
    assert_eq!(insertion, 182 + 164 + 150);
}

#[test]
fn global_forces() {
    let system = three_particles(soft());
    assert_eq!(field().forces(&system), vec![v(-1, -2, -3), v(1, 2, 3), v(-2, -4, -6)]);
    let coulomb = CutoffCoulomb::new(100);
    let forces = coulomb.forces(&system);
    assert_eq!(forces[0], v(6, -16, 0));
    assert_eq!(forces, three_particles(PairPotential::ShiftedCoulomb { cutoff2: 100 }).forces());
}
