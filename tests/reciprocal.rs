use lumol::reciprocal::{StructureFactor, StructureFactorError, PHASE_LIMIT};

fn two_particles() -> StructureFactor {
    let mut sf = StructureFactor::new(2);
    assert_eq!(sf.add_particle(vec![1, 2]), Ok(()));
    assert_eq!(sf.add_particle(vec![3, -4]), Ok(()));
    sf
}

#[test]
fn aggregate_sums_contributions() {
    let sf = two_particles();
    assert_eq!(sf.width(), 2);
    assert_eq!(sf.aggregate(0), 4);
    assert_eq!(sf.aggregate(1), -2);
    assert_eq!(sf.recompute(), vec![4, -2]);
}

#[test]
fn empty_structure_factor() {
    let sf = StructureFactor::new(3);
    assert_eq!(sf.recompute(), vec![0, 0, 0]);
    assert_eq!(sf.aggregate(2), 0);
}

#[test]
fn structure_factor_add_errors() {
    let mut sf = two_particles();
    assert_eq!(sf.add_particle(vec![1]), Err(StructureFactorError::WrongWidth));
    assert_eq!(sf.add_particle(vec![PHASE_LIMIT + 1, 0]), Err(StructureFactorError::OutOfRange));
    assert_eq!(sf.recompute(), vec![4, -2]);
}

#[test]
fn move_delta_leaves_aggregate() {
    let sf = two_particles();
    assert_eq!(sf.move_delta(0, &vec![5, 5]), vec![4, 3]);
    assert_eq!(sf.aggregate(0), 4);
    assert_eq!(sf.aggregate(1), -2);
}

#[test]
fn incremental_update_matches_recompute() {
    let mut sf = two_particles();
    sf.update(0, vec![5, 5]);
    assert_eq!(sf.aggregate(0), 8);
    assert_eq!(sf.aggregate(1), 1);
    assert_eq!(sf.recompute(), vec![8, 1]);
    sf.update(1, vec![-PHASE_LIMIT, PHASE_LIMIT]);
    assert_eq!(sf.recompute(), vec![5 - PHASE_LIMIT, 5 + PHASE_LIMIT]);
    assert_eq!(sf.aggregate(0), 5 - PHASE_LIMIT);
}
