//! The aggregate structure factor of a reciprocal-space solver, kept in step with
//! single-particle moves.
//!
//! Each particle contributes one fixed-point phase component per column (a column
//! is the real or the imaginary part of the phase factor at one reciprocal vector).
//! The aggregate of a column is the sum of its contributions over all particles.
use vstd::prelude::*;
use crate::system::MAX_PARTICLES;

verus! {

/// Largest magnitude of one phase component.
pub const PHASE_LIMIT: i64 = 1099511627776;

/// Errors of the structure factor.
#[derive(Clone, Copy, Debug, PartialEq, Eq, Structural)]
pub enum StructureFactorError {
    /// A row does not have one entry per column.
    WrongWidth,
    /// A phase component is beyond `PHASE_LIMIT`.
    OutOfRange,
    /// The structure factor already holds `MAX_PARTICLES` particles.
    TooManyParticles,
}

/// Sum of column `k` over the first `m` rows.
pub open spec fn column_sum(rows: Seq<Seq<i64>>, k: int, m: int) -> int
    decreases m,
{
    if m <= 0 {
        0
    } else {
        column_sum(rows, k, m - 1) + rows[m - 1][k]
    }
}

/// The aggregate of every column of `rows`, `width` columns wide.
pub open spec fn aggregate_of(rows: Seq<Seq<i64>>, width: nat) -> Seq<int> {
    Seq::new(width, |k: int| column_sum(rows, k, rows.len() as int))
}

pub open spec fn row_ok(row: Seq<i64>, width: nat) -> bool {
    &&& row.len() == width
    &&& forall|k: int| 0 <= k < width ==> -PHASE_LIMIT <= #[trigger] row[k] <= PHASE_LIMIT
}

/// Replacing row `i` changes each column sum by the change of that row alone.
pub proof fn lemma_column_sum_update(rows: Seq<Seq<i64>>, i: int, row: Seq<i64>, k: int, m: int)
    requires
        0 <= i < rows.len(),
        0 <= m <= rows.len(),
    ensures
        column_sum(rows.update(i, row), k, m) == column_sum(rows, k, m) + (if i < m {
            row[k] - rows[i][k]
        } else {
            0
        }),
    decreases m,
{
    if m > 0 {
        lemma_column_sum_update(rows, i, row, k, m - 1);
    }
}

proof fn lemma_column_sum_push(rows: Seq<Seq<i64>>, row: Seq<i64>, k: int, m: int)
    requires
        0 <= m <= rows.len(),
    ensures
        column_sum(rows.push(row), k, m) == column_sum(rows, k, m),
    decreases m,
{
    if m > 0 {
        lemma_column_sum_push(rows, row, k, m - 1);
    }
}

proof fn lemma_column_sum_bound(rows: Seq<Seq<i64>>, width: nat, k: int, m: int)
    requires
        0 <= k < width,
        0 <= m <= rows.len(),
        forall|i: int| 0 <= i < rows.len() ==> row_ok(#[trigger] rows[i], width),
    ensures
        -(m * PHASE_LIMIT) <= column_sum(rows, k, m) <= m * PHASE_LIMIT,
    decreases m,
{
    if m > 0 {
        lemma_column_sum_bound(rows, width, k, m - 1);
        assert(row_ok(rows[m - 1], width));
    }
}

/// The phase contributions of each particle and their aggregate.
pub struct StructureFactor {
    width: usize,
    rows: Vec<Vec<i64>>,
    aggregate: Vec<i64>,
}

impl StructureFactor {
    pub closed spec fn width_spec(&self) -> nat {
        self.width as nat
    }

    /// The contributions, one row per particle.
    pub closed spec fn rows_spec(&self) -> Seq<Seq<i64>> {
        Seq::new(self.rows@.len(), |i: int| self.rows@[i]@)
    }

    /// The aggregate held, one entry per column.
    pub closed spec fn aggregate_spec(&self) -> Seq<int> {
        Seq::new(self.aggregate@.len(), |k: int| self.aggregate@[k] as int)
    }

    /// The aggregate held is the sum of the rows, each row is in range and
    /// `width` wide, and there are at most `MAX_PARTICLES` rows.
    pub closed spec fn wf(&self) -> bool {
        &&& self.rows@.len() <= MAX_PARTICLES
        &&& forall|i: int| 0 <= i < self.rows@.len() ==> row_ok(#[trigger] self.rows@[i]@, self.width as nat)
        &&& self.aggregate@.len() == self.width
        &&& forall|k: int| 0 <= k < self.width ==> #[trigger] self.aggregate@[k] == column_sum(self.rows_spec(), k, self.rows@.len() as int)
    }

    proof fn lemma_wf_view(&self)
        requires
            self.wf(),
        ensures
            self.aggregate_spec() == aggregate_of(self.rows_spec(), self.width_spec()),
            forall|i: int| 0 <= i < self.rows_spec().len() ==> row_ok(#[trigger] self.rows_spec()[i], self.width_spec()),
    {
        assert(self.aggregate_spec() =~= aggregate_of(self.rows_spec(), self.width_spec()));
    }

    /// An empty structure factor with `width` columns.
    pub fn new(width: usize) -> (r: StructureFactor)
        ensures
            r.wf(),
            r.width_spec() == width,
            r.rows_spec().len() == 0,
            r.aggregate_spec() == aggregate_of(r.rows_spec(), r.width_spec()),
    {
        let mut aggregate: Vec<i64> = Vec::new();
        let mut k: usize = 0;
        while k < width
            invariant
                0 <= k <= width,
                aggregate@.len() == k,
                forall|j: int| 0 <= j < k ==> #[trigger] aggregate@[j] == 0,
            decreases width - k,
        {
            aggregate.push(0);
            k = k + 1;
        }
        let r = StructureFactor { width, rows: Vec::new(), aggregate };
        proof {
            assert(r.rows_spec() =~= Seq::<Seq<i64>>::empty());
            r.lemma_wf_view();
        }
        r
    }

    /// Number of columns.
    pub fn width(&self) -> (r: usize)
        ensures
            r == self.width_spec(),
    {
        self.width
    }

    /// The aggregate of column `k`.
    pub fn aggregate(&self, k: usize) -> (r: i64)
        requires
            self.wf(),
            k < self.width_spec(),
        ensures
            r == self.aggregate_spec()[k as int],
    {
        self.aggregate[k]
    }

    /// Appends the contributions of one more particle.
    pub fn add_particle(&mut self, row: Vec<i64>) -> (r: Result<(), StructureFactorError>)
        requires
            old(self).wf(),
        ensures
            final(self).wf(),
            final(self).width_spec() == old(self).width_spec(),
            r is Ok <==> old(self).rows_spec().len() < MAX_PARTICLES && row_ok(row@, old(self).width_spec()),
            r is Ok ==> final(self).rows_spec() == old(self).rows_spec().push(row@),
            r is Err ==> final(self).rows_spec() == old(self).rows_spec(),
            old(self).rows_spec().len() >= MAX_PARTICLES ==> r == Err::<(), StructureFactorError>(StructureFactorError::TooManyParticles),
            old(self).rows_spec().len() < MAX_PARTICLES && row@.len() != old(self).width_spec()
                ==> r == Err::<(), StructureFactorError>(StructureFactorError::WrongWidth),
            final(self).aggregate_spec() == aggregate_of(final(self).rows_spec(), final(self).width_spec()),
    {
        proof {
            self.lemma_wf_view();
        }
        if self.rows.len() >= MAX_PARTICLES {
            return Err(StructureFactorError::TooManyParticles);
        }
        if row.len() != self.width {
            return Err(StructureFactorError::WrongWidth);
        }
        let mut k: usize = 0;
        while k < self.width
            invariant
                self.wf(),
                self.rows@.len() < MAX_PARTICLES,
                self.aggregate_spec() == aggregate_of(self.rows_spec(), self.width_spec()),
                row@.len() == self.width,
                0 <= k <= self.width,
                forall|j: int| 0 <= j < k ==> -PHASE_LIMIT <= #[trigger] row@[j] <= PHASE_LIMIT,
            decreases self.width - k,
        {
            if row[k] < -PHASE_LIMIT || row[k] > PHASE_LIMIT {
                return Err(StructureFactorError::OutOfRange);
            }
            k = k + 1;
        }
        let ghost old_rows = self.rows_spec();
        let ghost n = self.rows@.len() as int;
        let mut k: usize = 0;
        while k < self.width
            invariant
                old_rows == self.rows_spec(),
                n == self.rows@.len(),
                n < MAX_PARTICLES,
                row_ok(row@, self.width as nat),
                forall|i: int| 0 <= i < self.rows@.len() ==> row_ok(#[trigger] self.rows@[i]@, self.width as nat),
                self.aggregate@.len() == self.width,
                0 <= k <= self.width,
                forall|j: int| k <= j < self.width ==> #[trigger] self.aggregate@[j] == column_sum(old_rows, j, n),
                forall|j: int| 0 <= j < k ==> #[trigger] self.aggregate@[j] == column_sum(old_rows, j, n) + row@[j],
            decreases self.width - k,
        {
            proof {
                lemma_column_sum_bound(old_rows, self.width as nat, k as int, n);
                assert(n * PHASE_LIMIT + PHASE_LIMIT <= MAX_PARTICLES * PHASE_LIMIT) by (nonlinear_arith)
                    requires
                        0 <= n < MAX_PARTICLES,
                ;
            }
            let a = self.aggregate[k] + row[k];
            self.aggregate.set(k, a);
            k = k + 1;
        }
        self.rows.push(row);
        proof {
            assert(self.rows_spec() =~= old_rows.push(row@));
            assert forall|j: int| 0 <= j < self.width implies #[trigger] self.aggregate@[j] == column_sum(self.rows_spec(), j, self.rows@.len() as int) by {
                lemma_column_sum_push(old_rows, row@, j, n);
            }
            self.lemma_wf_view();
        }
        Ok(())
    }

    /// The change of each column's aggregate if particle `i` took the contributions
    /// `row`, computed from that particle alone; nothing is changed.
    pub fn move_delta(&self, i: usize, row: &Vec<i64>) -> (r: Vec<i64>)
        requires
            self.wf(),
            i < self.rows_spec().len(),
            row_ok(row@, self.width_spec()),
        ensures
            r@.len() == self.width_spec(),
            forall|k: int| 0 <= k < self.width_spec() ==> #[trigger] r@[k] == column_sum(self.rows_spec().update(i as int, row@), k, self.rows_spec().len() as int) - self.aggregate_spec()[k],
    {
        let mut r: Vec<i64> = Vec::new();
        let mut k: usize = 0;
        while k < self.width
            invariant
                self.wf(),
                i < self.rows@.len(),
                row_ok(row@, self.width as nat),
                0 <= k <= self.width,
                r@.len() == k,
                forall|j: int| 0 <= j < k ==> #[trigger] r@[j] == row@[j] - self.rows@[i as int]@[j],
            decreases self.width - k,
        {
            assert(row_ok(self.rows@[i as int]@, self.width as nat));
            r.push(row[k] - self.rows[i][k]);
            k = k + 1;
        }
        proof {
            assert forall|k: int| 0 <= k < self.width_spec() implies #[trigger] r@[k] == column_sum(self.rows_spec().update(i as int, row@), k, self.rows_spec().len() as int) - self.aggregate_spec()[k] by {
                lemma_column_sum_update(self.rows_spec(), i as int, row@, k, self.rows_spec().len() as int);
            }
        }
        r
    }

    /// Commits a move of particle `i` to the contributions `row`: each aggregate is
    /// updated in place by the change of that particle alone.
    pub fn update(&mut self, i: usize, row: Vec<i64>)
        requires
            old(self).wf(),
            i < old(self).rows_spec().len(),
            row_ok(row@, old(self).width_spec()),
        ensures
            final(self).wf(),
            final(self).width_spec() == old(self).width_spec(),
            final(self).rows_spec() == old(self).rows_spec().update(i as int, row@),
            final(self).aggregate_spec() == aggregate_of(final(self).rows_spec(), final(self).width_spec()),
    {
        let ghost old_rows = self.rows_spec();
        let ghost n = self.rows@.len() as int;
        let mut k: usize = 0;
        while k < self.width
            invariant
                old_rows == self.rows_spec(),
                n == self.rows@.len(),
                n <= MAX_PARTICLES,
                i < n,
                row_ok(row@, self.width as nat),
                forall|j: int| 0 <= j < self.rows@.len() ==> row_ok(#[trigger] self.rows@[j]@, self.width as nat),
                self.aggregate@.len() == self.width,
                0 <= k <= self.width,
                forall|j: int| k <= j < self.width ==> #[trigger] self.aggregate@[j] == column_sum(old_rows, j, n),
                forall|j: int| 0 <= j < k ==> #[trigger] self.aggregate@[j] == column_sum(old_rows.update(i as int, row@), j, n),
            decreases self.width - k,
        {
            proof {
                lemma_column_sum_update(old_rows, i as int, row@, k as int, n);
                let new_rows = old_rows.update(i as int, row@);
                assert forall|j: int| 0 <= j < new_rows.len() implies row_ok(#[trigger] new_rows[j], self.width as nat) by {}
                lemma_column_sum_bound(new_rows, self.width as nat, k as int, n);
                assert(n * PHASE_LIMIT <= MAX_PARTICLES * PHASE_LIMIT) by (nonlinear_arith)
                    requires
                        0 <= n <= MAX_PARTICLES,
                ;
                assert(row_ok(self.rows@[i as int]@, self.width as nat));
            }
            let a = self.aggregate[k] + (row[k] - self.rows[i][k]);
            self.aggregate.set(k, a);
            k = k + 1;
        }
        self.rows.set(i, row);
        proof {
            assert(self.rows_spec() =~= old_rows.update(i as int, row@));
            self.lemma_wf_view();
        }
    }

    /// The aggregate of every column, summed over all particles from scratch.
    pub fn recompute(&self) -> (r: Vec<i64>)
        requires
            self.wf(),
        ensures
            r@.len() == self.width_spec(),
            forall|k: int| 0 <= k < self.width_spec() ==> #[trigger] r@[k] == column_sum(self.rows_spec(), k, self.rows_spec().len() as int),
    {
        let ghost rows = self.rows_spec();
        let n = self.rows.len();
        let mut r: Vec<i64> = Vec::new();
        let mut k: usize = 0;
        while k < self.width
            invariant
                self.wf(),
                rows == self.rows_spec(),
                n == rows.len(),
                0 <= k <= self.width,
                r@.len() == k,
                forall|j: int| 0 <= j < k ==> #[trigger] r@[j] == column_sum(rows, j, n as int),
            decreases self.width - k,
        {
            let mut acc: i64 = 0;
            let mut i: usize = 0;
            while i < n
                invariant
                    self.wf(),
                    rows == self.rows_spec(),
                    n == rows.len(),
                    k < self.width,
                    0 <= i <= n,
                    acc == column_sum(rows, k as int, i as int),
                decreases n - i,
            {
                proof {
                    self.lemma_wf_view();
                    lemma_column_sum_bound(rows, self.width as nat, k as int, i as int + 1);
                    assert((i + 1) * PHASE_LIMIT <= MAX_PARTICLES * PHASE_LIMIT) by (nonlinear_arith)
                        requires
                            0 <= i < n <= MAX_PARTICLES,
                    ;
                    assert(row_ok(self.rows@[i as int]@, self.width as nat));
                }
                acc = acc + self.rows[i][k];
                i = i + 1;
            }
            r.push(acc);
            k = k + 1;
        }
        r
    }
}

} // verus!
