//! Decisions of the Monte Carlo engine: which move to try, and whether to keep it.
use vstd::prelude::*;

verus! {

/// `w[0] + ... + w[i - 1]`.
pub open spec fn weight_prefix(w: Seq<u64>, i: int) -> int
    decreases i,
{
    if i <= 0 {
        0
    } else {
        weight_prefix(w, i - 1) + w[i - 1]
    }
}

proof fn lemma_prefix_monotone(w: Seq<u64>, i: int, j: int)
    requires
        0 <= i <= j <= w.len(),
    ensures
        weight_prefix(w, i) <= weight_prefix(w, j),
    decreases j - i,
{
    if i < j {
        lemma_prefix_monotone(w, i, j - 1);
    }
}

/// Picks a move by weight. `draw` is uniform in `[0, total)`, where `total` is the sum
/// of the weights; move `i` is picked when `draw` falls in its share
/// `[w[0] + ... + w[i - 1], w[0] + ... + w[i])`, so with probability `w[i] / total`.
/// `None` when `draw` is not below the total.
pub fn select_move(weights: &[u64], draw: u64) -> (r: Option<usize>)
    requires
        weight_prefix(weights@, weights@.len() as int) <= u64::MAX,
    ensures
        match r {
            Some(i) => i < weights@.len() && weight_prefix(weights@, i as int) <= draw < weight_prefix(
                weights@,
                i + 1,
            ),
            None => draw >= weight_prefix(weights@, weights@.len() as int),
        },
{
    let n = weights.len();
    let mut acc: u64 = 0;
    let mut i: usize = 0;
    while i < n
        invariant
            n == weights@.len(),
            0 <= i <= n,
            acc == weight_prefix(weights@, i as int),
            draw >= acc,
            weight_prefix(weights@, n as int) <= u64::MAX,
        decreases n - i,
    {
        proof {
            lemma_prefix_monotone(weights@, i as int + 1, n as int);
        }
        let next = acc + weights[i];
        if draw < next {
            return Some(i);
        }
        acc = next;
        i = i + 1;
    }
    None
}

/// The Metropolis criterion: a move that does not raise the energy is kept; one that
/// raises it is kept when `draw` is below `threshold`, the acceptance probability
/// `exp(-delta / kT)` scaled to the range of `draw`.
pub fn metropolis_accept(delta: i64, draw: u64, threshold: u64) -> (r: bool)
    ensures
        r == (delta <= 0 || draw < threshold),
{
    delta <= 0 || draw < threshold
}

} // verus!
