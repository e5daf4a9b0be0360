//! Sums over unordered pairs of particles, and how they change when one particle moves.
use vstd::prelude::*;

verus! {

/// `f(i, 0) + ... + f(i, m - 1)`.
pub open spec fn row_sum(f: spec_fn(int, int) -> int, i: int, m: int) -> int
    decreases m,
{
    if m <= 0 {
        0
    } else {
        row_sum(f, i, m - 1) + f(i, m - 1)
    }
}

/// Sum of `f(i, j)` over all pairs `j < i < n`: each unordered pair counted once.
pub open spec fn pair_sum(f: spec_fn(int, int) -> int, n: int) -> int
    decreases n,
{
    if n <= 0 {
        0
    } else {
        pair_sum(f, n - 1) + row_sum(f, n - 1, n - 1)
    }
}

/// Sum over `j < m`, `j != k`, of `g(k, j) - f(k, j)`: the change of the pairs that involve `k`.
pub open spec fn change_sum(f: spec_fn(int, int) -> int, g: spec_fn(int, int) -> int, k: int, m: int) -> int
    decreases m,
{
    if m <= 0 {
        0
    } else {
        change_sum(f, g, k, m - 1) + (if m - 1 == k {
            0
        } else {
            g(k, m - 1) - f(k, m - 1)
        })
    }
}

pub open spec fn symmetric(f: spec_fn(int, int) -> int) -> bool {
    forall|i: int, j: int| #[trigger] f(i, j) == f(j, i)
}

/// `f` and `g` agree on every pair that does not involve `k`.
pub open spec fn agree_off(f: spec_fn(int, int) -> int, g: spec_fn(int, int) -> int, k: int) -> bool {
    forall|i: int, j: int| i != k && j != k ==> #[trigger] f(i, j) == #[trigger] g(i, j)
}

proof fn lemma_row_unchanged(f: spec_fn(int, int) -> int, g: spec_fn(int, int) -> int, i: int, m: int)
    requires
        forall|j: int| 0 <= j < m ==> #[trigger] f(i, j) == g(i, j),
    ensures
        row_sum(f, i, m) == row_sum(g, i, m),
    decreases m,
{
    if m > 0 {
        lemma_row_unchanged(f, g, i, m - 1);
    }
}

proof fn lemma_row_one_change(f: spec_fn(int, int) -> int, g: spec_fn(int, int) -> int, k: int, i: int, m: int)
    requires
        agree_off(f, g, k),
        i != k,
        0 <= k,
    ensures
        row_sum(g, i, m) - row_sum(f, i, m) == (if k < m {
            g(i, k) - f(i, k)
        } else {
            0
        }),
    decreases m,
{
    if m > 0 {
        lemma_row_one_change(f, g, k, i, m - 1);
        if m - 1 != k {
            assert(f(i, m - 1) == g(i, m - 1));
        }
    }
}

proof fn lemma_row_is_change(f: spec_fn(int, int) -> int, g: spec_fn(int, int) -> int, k: int, m: int)
    requires
        m <= k,
    ensures
        row_sum(g, k, m) - row_sum(f, k, m) == change_sum(f, g, k, m),
    decreases m,
{
    if m > 0 {
        lemma_row_is_change(f, g, k, m - 1);
    }
}

/// Pairs below `n` that do not involve `k` where `k >= n` are untouched.
pub proof fn lemma_pair_sum_unchanged(f: spec_fn(int, int) -> int, g: spec_fn(int, int) -> int, k: int, n: int)
    requires
        agree_off(f, g, k),
        n <= k,
    ensures
        pair_sum(f, n) == pair_sum(g, n),
    decreases n,
{
    if n > 0 {
        lemma_pair_sum_unchanged(f, g, k, n - 1);
        assert forall|j: int| 0 <= j < n - 1 implies #[trigger] f(n - 1, j) == g(n - 1, j) by {}
        lemma_row_unchanged(f, g, n - 1, n - 1);
    }
}

/// Moving one particle `k` changes a symmetric pair sum by exactly the change of the
/// pairs that involve `k`: every other pair keeps its contribution.
pub proof fn lemma_pair_sum_one_change(f: spec_fn(int, int) -> int, g: spec_fn(int, int) -> int, k: int, n: int)
    requires
        symmetric(f),
        symmetric(g),
        agree_off(f, g, k),
        0 <= k < n,
    ensures
        pair_sum(g, n) - pair_sum(f, n) == change_sum(f, g, k, n),
    decreases n,
{
    if n - 1 == k {
        lemma_pair_sum_unchanged(f, g, k, n - 1);
        lemma_row_is_change(f, g, k, n - 1);
    } else {
        lemma_pair_sum_one_change(f, g, k, n - 1);
        lemma_row_one_change(f, g, k, n - 1, n - 1);
        assert(f(n - 1, k) == f(k, n - 1));
        assert(g(n - 1, k) == g(k, n - 1));
    }
}

/// Bounds on a pair sum whose terms are bounded by `b`.
pub proof fn lemma_pair_sum_bound(f: spec_fn(int, int) -> int, n: int, b: int)
    requires
        0 <= n,
        0 <= b,
        forall|i: int, j: int| -b <= #[trigger] f(i, j) <= b,
    ensures
        -(n * n * b) <= pair_sum(f, n) <= n * n * b,
    decreases n,
{
    if n > 0 {
        lemma_pair_sum_bound(f, n - 1, b);
        lemma_row_bound(f, n - 1, n - 1, b);
        assert((n - 1) * (n - 1) * b + (n - 1) * b <= n * n * b) by (nonlinear_arith)
            requires
                n >= 1,
                b >= 0,
        ;
    }
}

pub proof fn lemma_row_bound(f: spec_fn(int, int) -> int, i: int, m: int, b: int)
    requires
        0 <= m,
        0 <= b,
        forall|i: int, j: int| -b <= #[trigger] f(i, j) <= b,
    ensures
        -(m * b) <= row_sum(f, i, m) <= m * b,
    decreases m,
{
    if m > 0 {
        lemma_row_bound(f, i, m - 1, b);
        assert((m - 1) * b + b == m * b) by (nonlinear_arith);
    }
}

pub proof fn lemma_change_bound(f: spec_fn(int, int) -> int, g: spec_fn(int, int) -> int, k: int, m: int, b: int)
    requires
        0 <= m,
        0 <= b,
        forall|i: int, j: int| -b <= #[trigger] f(i, j) <= b,
        forall|i: int, j: int| -b <= #[trigger] g(i, j) <= b,
    ensures
        -(2 * m * b) <= change_sum(f, g, k, m) <= 2 * m * b,
    decreases m,
{
    if m > 0 {
        lemma_change_bound(f, g, k, m - 1, b);
        assert(2 * (m - 1) * b + 2 * b == 2 * m * b) by (nonlinear_arith);
    }
}

} // verus!
