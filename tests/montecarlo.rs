use lumol::montecarlo::{metropolis_accept, select_move};

#[test]
fn select_by_weight() {
    let weights = [1, 0, 3];
    assert_eq!(select_move(&weights, 0), Some(0));
    assert_eq!(select_move(&weights, 1), Some(2));
    assert_eq!(select_move(&weights, 3), Some(2));
    assert_eq!(select_move(&weights, 4), None);
    assert_eq!(select_move(&[], 0), None);
}

#[test]
fn select_frequencies_follow_weights() {
    let weights = [2, 6];
    let mut counts = [0, 0];
    for draw in 0..8 {
        counts[select_move(&weights, draw).unwrap()] += 1;
    }
    assert_eq!(counts, [2, 6]);
}

#[test]
fn metropolis_decisions() {
    assert!(metropolis_accept(-5, u64::MAX, 0));
    assert!(metropolis_accept(0, u64::MAX, 0));
    assert!(metropolis_accept(3, 10, 11));
    assert!(!metropolis_accept(3, 11, 11));
}
