//! The particle system: positions, molecules, charges and pairwise interactions.
use vstd::prelude::*;
use crate::vector::{Vector3D, UnitCell, COORD_LIMIT, CELL_LIMIT};
use crate::pair::{PairPotential, PairRestriction, PAIR_LIMIT, CHARGE_LIMIT, STIFFNESS_LIMIT, KERNEL_CUTOFF2_LIMIT};
use crate::sums::{pair_sum, row_sum, change_sum, symmetric, agree_off, lemma_pair_sum_one_change,
    lemma_pair_sum_bound, lemma_row_bound, lemma_change_bound, lemma_pair_sum_unchanged};

verus! {

/// Largest number of particles a system may hold.
pub const MAX_PARTICLES: usize = 16384;

/// Largest magnitude of a pairwise energy sum over a whole system (`MAX_PARTICLES`
/// squared times `PAIR_LIMIT`).
pub const PAIR_TOTAL_LIMIT: i64 = 288230376151711744;

/// Errors of the system's construction.
#[derive(Clone, Copy, Debug, PartialEq, Eq, Structural)]
pub enum SystemError {
    /// The system already holds `MAX_PARTICLES` particles.
    TooManyParticles,
    /// A coordinate or a charge is beyond the limits of the fixed-point representation.
    OutOfRange,
    /// A bond names a particle that does not exist.
    InvalidTopology,
}

/// A collection of particles with pairwise interactions.
pub struct System {
    /// Position of each particle.
    pub positions: Vec<Vector3D>,
    /// Molecule each particle belongs to.
    pub molecules: Vec<u32>,
    /// Charge of each particle, in fixed-point charge units.
    pub charges: Vec<i64>,
    /// Pairs of particles joined by a bond.
    pub bonds: Vec<(usize, usize)>,
    /// The periodic boundary; distances follow its minimum-image convention.
    pub cell: UnitCell,
    /// The potential acting between every pair of particles.
    pub pair: PairPotential,
    /// Which pairs the pair potential leaves out.
    pub restriction: PairRestriction,
}

/// The mathematical content of a `System`.
pub ghost struct SystemModel {
    pub positions: Seq<Vector3D>,
    pub molecules: Seq<u32>,
    pub charges: Seq<i64>,
    pub bonds: Seq<(usize, usize)>,
    pub cell: UnitCell,
    pub pair: PairPotential,
    pub restriction: PairRestriction,
}

impl View for System {
    type V = SystemModel;

    open spec fn view(&self) -> SystemModel {
        SystemModel {
            positions: self.positions@,
            molecules: self.molecules@,
            charges: self.charges@,
            bonds: self.bonds@,
            cell: self.cell,
            pair: self.pair,
            restriction: self.restriction,
        }
    }
}

/// The positions after moving `idxes[0]` to `newpos[0]`, then `idxes[1]` to `newpos[1]`,
/// and so on for the first `m` entries.
pub open spec fn apply_moves(pos: Seq<Vector3D>, idxes: Seq<usize>, newpos: Seq<Vector3D>, m: int) -> Seq<Vector3D>
    decreases m,
{
    if m <= 0 {
        pos
    } else {
        apply_moves(pos, idxes, newpos, m - 1).update(idxes[m - 1] as int, newpos[m - 1])
    }
}

/// Energy of the pair `(i, j)` at positions `pi`, `pj` under `pot` and `restr`.
pub open spec fn term_at(
    pot: PairPotential,
    restr: PairRestriction,
    s: SystemModel,
    i: int,
    pi: Vector3D,
    j: int,
    pj: Vector3D,
) -> int {
    if restr.excludes_spec(s.molecules[i], s.molecules[j], s.bonded(i, j)) {
        0
    } else {
        pot.energy_spec(s.charges[i] as int, s.charges[j] as int, s.cell.dist2_spec(pi, pj))
    }
}

/// The energy of each pair of distinct particles of `s` placed at `pos`; zero elsewhere.
pub open spec fn interaction(pot: PairPotential, restr: PairRestriction, s: SystemModel, pos: Seq<Vector3D>) -> spec_fn(int, int) -> int {
    |i: int, j: int|
        if 0 <= i < s.len() && 0 <= j < s.len() && i != j {
            term_at(pot, restr, s, i, pos[i], j, pos[j])
        } else {
            0
        }
}

/// Total energy of `pot` over the unordered pairs of `s`, under `restr`.
pub open spec fn pair_energy_of(pot: PairPotential, restr: PairRestriction, s: SystemModel) -> int {
    pair_sum(interaction(pot, restr, s, s.positions), s.len() as int)
}

impl SystemModel {
    pub open spec fn len(&self) -> nat {
        self.positions.len()
    }

    pub open spec fn wf(&self) -> bool {
        &&& self.molecules.len() == self.positions.len()
        &&& self.charges.len() == self.positions.len()
        &&& self.positions.len() <= MAX_PARTICLES
        &&& forall|i: int| 0 <= i < self.positions.len() ==> (#[trigger] self.positions[i]).wf()
        &&& forall|i: int|
            0 <= i < self.charges.len() ==> -CHARGE_LIMIT <= #[trigger] self.charges[i] <= CHARGE_LIMIT
        &&& forall|k: int|
            0 <= k < self.bonds.len() ==> (#[trigger] self.bonds[k]).0 < self.positions.len()
                && self.bonds[k].1 < self.positions.len()
        &&& self.cell.wf()
        &&& self.pair.wf()
    }

    /// Each index names a particle, each new position is in range, one for one.
    pub open spec fn valid_move(&self, idxes: Seq<usize>, newpos: Seq<Vector3D>) -> bool {
        &&& idxes.len() == newpos.len()
        &&& forall|m: int| 0 <= m < idxes.len() ==> #[trigger] idxes[m] < self.len()
        &&& forall|m: int| 0 <= m < newpos.len() ==> (#[trigger] newpos[m]).wf()
    }

    /// The system after the move: the particles `idxes` placed at `newpos`, in order.
    pub open spec fn moved(&self, idxes: Seq<usize>, newpos: Seq<Vector3D>) -> SystemModel {
        SystemModel {
            positions: apply_moves(self.positions, idxes, newpos, idxes.len() as int),
            ..*self
        }
    }

    /// Particles `i` and `j` are joined by a bond, in either order.
    pub open spec fn bonded(&self, i: int, j: int) -> bool {
        exists|k: int|
            0 <= k < self.bonds.len() && ((#[trigger] self.bonds[k]) == (i as usize, j as usize) || self.bonds[k] == (
                j as usize,
                i as usize,
            ))
    }

    /// The system with one more particle, at `pos`, in molecule `mol`, of charge `q`.
    pub open spec fn inserted(&self, pos: Vector3D, mol: u32, q: i64) -> SystemModel {
        SystemModel {
            positions: self.positions.push(pos),
            molecules: self.molecules.push(mol),
            charges: self.charges.push(q),
            ..*self
        }
    }

    /// A particle at `pos` with charge `q` can be added.
    pub open spec fn can_insert(&self, pos: Vector3D, q: i64) -> bool {
        self.len() < MAX_PARTICLES && pos.wf() && -CHARGE_LIMIT <= q <= CHARGE_LIMIT
    }

    /// Energy of the system's own pair potential over every unordered pair.
    pub open spec fn pair_energy(&self) -> int {
        pair_energy_of(self.pair, self.restriction, *self)
    }
}

pub proof fn lemma_apply_moves(s: SystemModel, idxes: Seq<usize>, newpos: Seq<Vector3D>, m: int)
    requires
        s.wf(),
        s.valid_move(idxes, newpos),
        0 <= m <= idxes.len(),
    ensures
        apply_moves(s.positions, idxes, newpos, m).len() == s.len(),
        forall|i: int|
            0 <= i < s.len() ==> (#[trigger] apply_moves(s.positions, idxes, newpos, m)[i]).wf(),
    decreases m,
{
    if m > 0 {
        lemma_apply_moves(s, idxes, newpos, m - 1);
    }
}

/// Facts on the interaction of a well-formed system at well-formed positions.
pub proof fn lemma_interaction(pot: PairPotential, restr: PairRestriction, s: SystemModel, pos: Seq<Vector3D>)
    requires
        s.wf(),
        pot.wf(),
        pos.len() == s.len(),
        forall|i: int| 0 <= i < pos.len() ==> (#[trigger] pos[i]).wf(),
    ensures
        symmetric(interaction(pot, restr, s, pos)),
        forall|i: int, j: int|
            -PAIR_LIMIT <= #[trigger] interaction(pot, restr, s, pos)(i, j) <= PAIR_LIMIT,
{
    let f = interaction(pot, restr, s, pos);
    assert forall|i: int, j: int| #[trigger] f(i, j) == f(j, i) && -PAIR_LIMIT <= f(i, j) <= PAIR_LIMIT by {
        if 0 <= i < s.len() && 0 <= j < s.len() && i != j {
            s.cell.lemma_dist2(pos[i], pos[j]);
            pot.lemma_energy(s.charges[i] as int, s.charges[j] as int, s.cell.dist2_spec(pos[i], pos[j]));
        }
    }
}

proof fn lemma_limits(n: int)
    requires
        0 <= n <= MAX_PARTICLES,
    ensures
        n * n * PAIR_LIMIT <= PAIR_TOTAL_LIMIT,
        n * PAIR_LIMIT <= PAIR_TOTAL_LIMIT,
        4 * n * PAIR_LIMIT <= PAIR_TOTAL_LIMIT,
{
    assert(n * n <= 16384 * 16384) by (nonlinear_arith)
        requires
            0 <= n <= 16384,
    ;
    assert(n * n * 1073741824 <= 288230376151711744) by (nonlinear_arith)
        requires
            0 <= n * n <= 16384 * 16384,
    ;
}

/// Energy of the pair `(i, j)` with particle `i` at `pi` and `j` at `pj`.
fn pair_term(
    pot: &PairPotential,
    restr: &PairRestriction,
    system: &System,
    i: usize,
    pi: &Vector3D,
    j: usize,
    pj: &Vector3D,
) -> (r: i64)
    requires
        system@.wf(),
        pot.wf(),
        i < system@.len(),
        j < system@.len(),
        pi.wf(),
        pj.wf(),
    ensures
        r == term_at(*pot, *restr, system@, i as int, *pi, j as int, *pj),
        -PAIR_LIMIT <= r <= PAIR_LIMIT,
{
    if restr.excludes(system.molecules[i], system.molecules[j], system.are_bonded(i, j)) {
        0
    } else {
        let r2 = system.cell.dist2(pi, pj);
        pot.energy(system.charges[i], system.charges[j], r2)
    }
}

/// Total energy of `pot` over every unordered pair of `system`, computed from scratch.
pub fn compute_pair_energy(pot: &PairPotential, restr: &PairRestriction, system: &System) -> (r: i64)
    requires
        system@.wf(),
        pot.wf(),
    ensures
        r == pair_energy_of(*pot, *restr, system@),
        -PAIR_TOTAL_LIMIT <= r <= PAIR_TOTAL_LIMIT,
{
    let ghost s = system@;
    let ghost f = interaction(*pot, *restr, s, s.positions);
    proof {
        lemma_interaction(*pot, *restr, s, s.positions);
        lemma_limits(s.len() as int);
    }
    let n = system.positions.len();
    let mut acc: i64 = 0;
    let mut i: usize = 0;
    while i < n
        invariant
            s == system@,
            f == interaction(*pot, *restr, s, s.positions),
            symmetric(f),
            forall|a: int, b: int| -PAIR_LIMIT <= #[trigger] f(a, b) <= PAIR_LIMIT,
            s.wf(),
            pot.wf(),
            n == s.len(),
            0 <= i <= n,
            acc == pair_sum(f, i as int),
        decreases n - i,
    {
        proof {
            lemma_pair_sum_bound(f, i as int, PAIR_LIMIT as int);
            lemma_limits(i as int);
        }
        let mut row: i64 = 0;
        let mut j: usize = 0;
        while j < i
            invariant
                s == system@,
                f == interaction(*pot, *restr, s, s.positions),
                forall|a: int, b: int| -PAIR_LIMIT <= #[trigger] f(a, b) <= PAIR_LIMIT,
                s.wf(),
                pot.wf(),
                n == s.len(),
                0 <= j <= i < n,
                row == row_sum(f, i as int, j as int),
            decreases i - j,
        {
            proof {
                lemma_row_bound(f, i as int, j as int, PAIR_LIMIT as int);
                lemma_limits(j as int);
            }
            let e = pair_term(pot, restr, system, i, &system.positions[i], j, &system.positions[j]);
            row = row + e;
            j = j + 1;
        }
        proof {
            lemma_row_bound(f, i as int, i as int, PAIR_LIMIT as int);
            lemma_pair_sum_bound(f, i as int + 1, PAIR_LIMIT as int);
            lemma_limits(i as int + 1);
        }
        acc = acc + row;
        i = i + 1;
    }
    proof {
        lemma_pair_sum_bound(f, n as int, PAIR_LIMIT as int);
    }
    acc
}

/// Change of the energy of `pot` when particle `k`, now at `cur[k]`, is placed at `p`,
/// the others staying at `cur`. Only the pairs that involve `k` are evaluated.
fn particle_move_cost(
    pot: &PairPotential,
    restr: &PairRestriction,
    system: &System,
    cur: &Vec<Vector3D>,
    k: usize,
    p: &Vector3D,
) -> (r: i64)
    requires
        system@.wf(),
        pot.wf(),
        cur@.len() == system@.len(),
        forall|i: int| 0 <= i < cur@.len() ==> (#[trigger] cur@[i]).wf(),
        k < system@.len(),
        p.wf(),
    ensures
        r == pair_sum(interaction(*pot, *restr, system@, cur@.update(k as int, *p)), system@.len() as int)
            - pair_sum(interaction(*pot, *restr, system@, cur@), system@.len() as int),
        -2 * MAX_PARTICLES * PAIR_LIMIT <= r <= 2 * MAX_PARTICLES * PAIR_LIMIT,
{
    let ghost s = system@;
    let ghost f = interaction(*pot, *restr, s, cur@);
    let ghost g = interaction(*pot, *restr, s, cur@.update(k as int, *p));
    proof {
        lemma_interaction(*pot, *restr, s, cur@);
        lemma_interaction(*pot, *restr, s, cur@.update(k as int, *p));
        lemma_limits(s.len() as int);
    }
    let n = cur.len();
    let mut acc: i64 = 0;
    let mut j: usize = 0;
    while j < n
        invariant
            s == system@,
            f == interaction(*pot, *restr, s, cur@),
            g == interaction(*pot, *restr, s, cur@.update(k as int, *p)),
            forall|a: int, b: int| -PAIR_LIMIT <= #[trigger] f(a, b) <= PAIR_LIMIT,
            forall|a: int, b: int| -PAIR_LIMIT <= #[trigger] g(a, b) <= PAIR_LIMIT,
            s.wf(),
            pot.wf(),
            n == s.len(),
            cur@.len() == n,
            forall|i: int| 0 <= i < cur@.len() ==> (#[trigger] cur@[i]).wf(),
            k < n,
            p.wf(),
            0 <= j <= n,
            acc == change_sum(f, g, k as int, j as int),
        decreases n - j,
    {
        proof {
            lemma_change_bound(f, g, k as int, j as int, PAIR_LIMIT as int);
            lemma_limits(j as int);
        }
        if j != k {
            let e_new = pair_term(pot, restr, system, k, p, j, &cur[j]);
            let e_old = pair_term(pot, restr, system, k, &cur[k], j, &cur[j]);
            acc = acc + (e_new - e_old);
        }
        j = j + 1;
    }
    proof {
        assert(agree_off(f, g, k as int));
        lemma_pair_sum_one_change(f, g, k as int, n as int);
        lemma_change_bound(f, g, k as int, n as int, PAIR_LIMIT as int);
    }
    acc
}

/// A copy of the positions.
fn copy_positions(v: &Vec<Vector3D>) -> (r: Vec<Vector3D>)
    ensures
        r@ == v@,
{
    let mut r: Vec<Vector3D> = Vec::new();
    let mut i: usize = 0;
    while i < v.len()
        invariant
            0 <= i <= v@.len(),
            r@ == v@.subrange(0, i as int),
        decreases v@.len() - i,
    {
        r.push(v[i]);
        i = i + 1;
        assert(r@ =~= v@.subrange(0, i as int));
    }
    assert(r@ =~= v@);
    r
}

/// Change of the energy of `pot` over the pairs of `system` when the particles
/// `idxes` are placed at `newpos`. `system` itself is not changed; the work is
/// proportional to the number of moved particles times the number of particles.
pub fn compute_pair_move_cost(
    pot: &PairPotential,
    restr: &PairRestriction,
    system: &System,
    idxes: &[usize],
    newpos: &[Vector3D],
) -> (r: i64)
    requires
        system@.wf(),
        pot.wf(),
        system@.valid_move(idxes@, newpos@),
    ensures
        r == pair_energy_of(*pot, *restr, system@.moved(idxes@, newpos@)) - pair_energy_of(*pot, *restr, system@),
        -2 * PAIR_TOTAL_LIMIT <= r <= 2 * PAIR_TOTAL_LIMIT,
        -PAIR_TOTAL_LIMIT <= pair_energy_of(*pot, *restr, system@.moved(idxes@, newpos@)) <= PAIR_TOTAL_LIMIT,
{
    let ghost s = system@;
    let ghost n = s.len() as int;
    let mut cur = copy_positions(&system.positions);
    let mut acc: i64 = 0;
    let mut m: usize = 0;
    proof {
        lemma_interaction(*pot, *restr, s, s.positions);
        lemma_pair_sum_bound(interaction(*pot, *restr, s, s.positions), n, PAIR_LIMIT as int);
        lemma_limits(n);
    }
    while m < idxes.len()
        invariant
            s == system@,
            n == s.len(),
            s.wf(),
            pot.wf(),
            s.valid_move(idxes@, newpos@),
            0 <= m <= idxes@.len(),
            cur@ == apply_moves(s.positions, idxes@, newpos@, m as int),
            acc == pair_sum(interaction(*pot, *restr, s, cur@), n) - pair_sum(
                interaction(*pot, *restr, s, s.positions),
                n,
            ),
            -PAIR_TOTAL_LIMIT <= pair_sum(interaction(*pot, *restr, s, s.positions), n) <= PAIR_TOTAL_LIMIT,
        decreases idxes@.len() - m,
    {
        proof {
            lemma_apply_moves(s, idxes@, newpos@, m as int);
            lemma_apply_moves(s, idxes@, newpos@, m as int + 1);
            lemma_interaction(*pot, *restr, s, cur@);
            lemma_pair_sum_bound(interaction(*pot, *restr, s, cur@), n, PAIR_LIMIT as int);
            lemma_limits(n);
        }
        let k = idxes[m];
        let delta = particle_move_cost(pot, restr, system, &cur, k, &newpos[m]);
        proof {
            let next = apply_moves(s.positions, idxes@, newpos@, m as int + 1);
            assert(next == cur@.update(k as int, newpos@[m as int]));
            lemma_interaction(*pot, *restr, s, next);
            lemma_pair_sum_bound(interaction(*pot, *restr, s, next), n, PAIR_LIMIT as int);
        }
        acc = acc + delta;
        cur.set(k, newpos[m]);
        m = m + 1;
    }
    proof {
        let moved = s.moved(idxes@, newpos@);
        lemma_apply_moves(s, idxes@, newpos@, idxes@.len() as int);
        lemma_interaction(*pot, *restr, s, cur@);
        lemma_pair_sum_bound(interaction(*pot, *restr, s, cur@), n, PAIR_LIMIT as int);
        assert(moved.bonds == s.bonds);
        assert forall|a: int, b: int| moved.bonded(a, b) == s.bonded(a, b) by {}
        assert(interaction(*pot, *restr, moved, moved.positions) =~= interaction(*pot, *restr, s, cur@));
    }
    acc
}

/// A copy of a vector of plain values.
fn copy_vec<T: Copy>(v: &Vec<T>) -> (r: Vec<T>)
    ensures
        r@ == v@,
{
    let mut r: Vec<T> = Vec::new();
    let mut i: usize = 0;
    while i < v.len()
        invariant
            0 <= i <= v@.len(),
            r@ == v@.subrange(0, i as int),
        decreases v@.len() - i,
    {
        r.push(v[i]);
        i = i + 1;
        assert(r@ =~= v@.subrange(0, i as int));
    }
    assert(r@ =~= v@);
    r
}

/// Change of the energy of `pot` over the pairs of `system` when a particle at `pos`,
/// in molecule `mol`, with charge `q`, is added; only the new pairs are evaluated.
pub fn compute_pair_insertion_cost(
    pot: &PairPotential,
    restr: &PairRestriction,
    system: &System,
    pos: &Vector3D,
    mol: u32,
    q: i64,
) -> (r: i64)
    requires
        system@.wf(),
        pot.wf(),
        system@.can_insert(*pos, q),
    ensures
        r == pair_energy_of(*pot, *restr, system@.inserted(*pos, mol, q)) - pair_energy_of(*pot, *restr, system@),
        -MAX_PARTICLES * PAIR_LIMIT <= r <= MAX_PARTICLES * PAIR_LIMIT,
{
    let ghost s = system@;
    let ghost s2 = s.inserted(*pos, mol, q);
    let ghost f = interaction(*pot, *restr, s, s.positions);
    let ghost g = interaction(*pot, *restr, s2, s2.positions);
    let n = system.positions.len();
    proof {
        assert(s2.wf()) by {
            assert forall|i: int| 0 <= i < s2.positions.len() implies (#[trigger] s2.positions[i]).wf() by {
                if i < n {
                    assert(s2.positions[i] == s.positions[i]);
                }
            }
            assert forall|i: int| 0 <= i < s2.charges.len() implies -CHARGE_LIMIT <= #[trigger] s2.charges[i] <= CHARGE_LIMIT by {
                if i < n {
                    assert(s2.charges[i] == s.charges[i]);
                }
            }
        }
        lemma_interaction(*pot, *restr, s2, s2.positions);
        lemma_limits(n as int);
    }
    let mut acc: i64 = 0;
    let mut j: usize = 0;
    while j < n
        invariant
            s == system@,
            s2 == s.inserted(*pos, mol, q),
            s2.wf(),
            g == interaction(*pot, *restr, s2, s2.positions),
            forall|a: int, b: int| -PAIR_LIMIT <= #[trigger] g(a, b) <= PAIR_LIMIT,
            s.wf(),
            pot.wf(),
            pos.wf(),
            -CHARGE_LIMIT <= q <= CHARGE_LIMIT,
            n == s.len(),
            n < MAX_PARTICLES,
            0 <= j <= n,
            acc == row_sum(g, n as int, j as int),
        decreases n - j,
    {
        proof {
            lemma_row_bound(g, n as int, j as int, PAIR_LIMIT as int);
            lemma_limits(j as int);
            assert(s2.molecules[j as int] == s.molecules[j as int]);
            assert(s2.charges[j as int] == s.charges[j as int]);
            assert(s2.positions[j as int] == s.positions[j as int]);
            assert(!s2.bonded(n as int, j as int)) by {
                assert forall|k: int| 0 <= k < s2.bonds.len() implies (#[trigger] s2.bonds[k]) != (n, j) && s2.bonds[k] != (j, n) by {
                    assert(s.bonds[k].0 < n && s.bonds[k].1 < n);
                }
            }
        }
        let e = if restr.excludes(mol, system.molecules[j], false) {
            0
        } else {
            let r2 = system.cell.dist2(pos, &system.positions[j]);
            pot.energy(q, system.charges[j], r2)
        };
        acc = acc + e;
        j = j + 1;
    }
    proof {
        assert(agree_off(f, g, n as int)) by {
            assert forall|a: int, b: int| a != n && b != n implies #[trigger] f(a, b) == #[trigger] g(a, b) by {
                if 0 <= a < n && 0 <= b < n && a != b {
                    assert(s2.bonds == s.bonds);
                    assert(s2.bonded(a, b) == s.bonded(a, b));
                    assert(s2.positions[a] == s.positions[a]);
                    assert(s2.positions[b] == s.positions[b]);
                    assert(s2.molecules[a] == s.molecules[a]);
                    assert(s2.molecules[b] == s.molecules[b]);
                    assert(s2.charges[a] == s.charges[a]);
                    assert(s2.charges[b] == s.charges[b]);
                }
            }
        }
        lemma_pair_sum_unchanged(f, g, n as int, n as int);
        lemma_row_bound(g, n as int, n as int, PAIR_LIMIT as int);
    }
    acc
}

/// Largest magnitude of one component of the force between two particles.
pub const PAIR_FORCE_LIMIT: i64 = 4194304;

/// The force that particle `j` exerts on particle `i` under `pot` and `restr`:
/// `2 * c * (ri - rj)` with `c` the force factor and the minimum-image separation.
pub open spec fn pair_force(pot: PairPotential, restr: PairRestriction, s: SystemModel, i: int, j: int) -> (int, int, int) {
    if 0 <= i < s.len() && 0 <= j < s.len() && i != j && !restr.excludes_spec(s.molecules[i], s.molecules[j], s.bonded(i, j)) {
        let c = pot.force_factor_spec(
            s.charges[i] as int,
            s.charges[j] as int,
            s.cell.dist2_spec(s.positions[i], s.positions[j]),
        );
        let (dx, dy, dz) = s.cell.displacement_spec(s.positions[i], s.positions[j]);
        (2 * c * dx, 2 * c * dy, 2 * c * dz)
    } else {
        (0, 0, 0)
    }
}

/// Sum of the forces that particles `0 .. m` exert on particle `i`.
pub open spec fn force_sum(pot: PairPotential, restr: PairRestriction, s: SystemModel, i: int, m: int) -> (int, int, int)
    decreases m,
{
    if m <= 0 {
        (0, 0, 0)
    } else {
        let (x, y, z) = force_sum(pot, restr, s, i, m - 1);
        let (a, b, c) = pair_force(pot, restr, s, i, m - 1);
        (x + a, y + b, z + c)
    }
}

proof fn lemma_force_component(c: int, d: int, r2: int)
    requires
        -4096 <= c <= 4096,
        c != 0 ==> r2 < 262144,
        0 <= d * d <= r2,
    ensures
        -PAIR_FORCE_LIMIT <= 2 * c * d <= PAIR_FORCE_LIMIT,
{
    if c != 0 {
        if d >= 512 {
            assert(d * d >= 512 * 512) by (nonlinear_arith)
                requires
                    d >= 512,
            ;
        }
        if d <= -512 {
            assert(d * d >= 512 * 512) by (nonlinear_arith)
                requires
                    d <= -512,
            ;
        }
        assert(-PAIR_FORCE_LIMIT <= 2 * c * d <= PAIR_FORCE_LIMIT) by (nonlinear_arith)
            requires
                -4096 <= c <= 4096,
                -512 < d < 512,
        ;
    } else {
        assert(2 * c * d == 0) by (nonlinear_arith)
            requires
                c == 0,
        ;
    }
}

/// The force that particle `j` exerts on particle `i`.
fn compute_pair_force(pot: &PairPotential, restr: &PairRestriction, system: &System, i: usize, j: usize) -> (r: Vector3D)
    requires
        system@.wf(),
        pot.wf(),
        i < system@.len(),
        j < system@.len(),
    ensures
        (r.x as int, r.y as int, r.z as int) == pair_force(*pot, *restr, system@, i as int, j as int),
        -PAIR_FORCE_LIMIT <= r.x <= PAIR_FORCE_LIMIT,
        -PAIR_FORCE_LIMIT <= r.y <= PAIR_FORCE_LIMIT,
        -PAIR_FORCE_LIMIT <= r.z <= PAIR_FORCE_LIMIT,
{
    if i == j || restr.excludes(system.molecules[i], system.molecules[j], system.are_bonded(i, j)) {
        return Vector3D { x: 0, y: 0, z: 0 };
    }
    let pi = &system.positions[i];
    let pj = &system.positions[j];
    let r2 = system.cell.dist2(pi, pj);
    let c = pot.force_factor(system.charges[i], system.charges[j], r2);
    let d = system.cell.displacement(pi, pj);
    proof {
        system@.cell.lemma_displacement(*pi, *pj);
        assert(d.x * d.x >= 0 && d.y * d.y >= 0 && d.z * d.z >= 0) by (nonlinear_arith);
        lemma_force_component(c as int, d.x as int, r2 as int);
        lemma_force_component(c as int, d.y as int, r2 as int);
        lemma_force_component(c as int, d.z as int, r2 as int);
    }
    Vector3D { x: 2 * c * d.x, y: 2 * c * d.y, z: 2 * c * d.z }
}

/// The force on every particle of `system` under `pot`: for particle `i`, the sum
/// over the other particles `j` of `pair_force(i, j)`.
pub fn compute_forces(pot: &PairPotential, restr: &PairRestriction, system: &System) -> (r: Vec<Vector3D>)
    requires
        system@.wf(),
        pot.wf(),
    ensures
        r@.len() == system@.len(),
        forall|i: int|
            0 <= i < r@.len() ==> ((#[trigger] r@[i]).x as int, r@[i].y as int, r@[i].z as int) == force_sum(
                *pot,
                *restr,
                system@,
                i,
                system@.len() as int,
            ),
{
    let ghost s = system@;
    let n = system.positions.len();
    let mut forces: Vec<Vector3D> = Vec::new();
    let mut i: usize = 0;
    while i < n
        invariant
            s == system@,
            s.wf(),
            pot.wf(),
            n == s.len(),
            0 <= i <= n,
            forces@.len() == i,
            forall|k: int|
                0 <= k < i ==> ((#[trigger] forces@[k]).x as int, forces@[k].y as int, forces@[k].z as int)
                    == force_sum(*pot, *restr, s, k, n as int),
        decreases n - i,
    {
        let mut x: i64 = 0;
        let mut y: i64 = 0;
        let mut z: i64 = 0;
        let mut j: usize = 0;
        while j < n
            invariant
                s == system@,
                s.wf(),
                pot.wf(),
                n == s.len(),
                i < n,
                0 <= j <= n,
                (x as int, y as int, z as int) == force_sum(*pot, *restr, s, i as int, j as int),
                -(j * PAIR_FORCE_LIMIT) <= x <= j * PAIR_FORCE_LIMIT,
                -(j * PAIR_FORCE_LIMIT) <= y <= j * PAIR_FORCE_LIMIT,
                -(j * PAIR_FORCE_LIMIT) <= z <= j * PAIR_FORCE_LIMIT,
            decreases n - j,
        {
            let f = compute_pair_force(pot, restr, system, i, j);
            assert((j + 1) * PAIR_FORCE_LIMIT <= MAX_PARTICLES * PAIR_FORCE_LIMIT) by (nonlinear_arith)
                requires
                    j < MAX_PARTICLES,
            ;
            x = x + f.x;
            y = y + f.y;
            z = z + f.z;
            j = j + 1;
        }
        forces.push(Vector3D { x, y, z });
        i = i + 1;
    }
    forces
}

impl System {
    /// An empty system without periodicity, with the given pair potential and restriction.
    pub fn new(pair: PairPotential, restriction: PairRestriction) -> (r: System)
        ensures
            r@.len() == 0,
            r@.molecules.len() == 0,
            r@.charges.len() == 0,
            r@.bonds.len() == 0,
            r@.cell == UnitCell::Infinite,
            r@.pair == pair,
            r@.restriction == restriction,
    {
        System {
            positions: Vec::new(),
            molecules: Vec::new(),
            charges: Vec::new(),
            bonds: Vec::new(),
            cell: UnitCell::Infinite,
            pair,
            restriction,
        }
    }

    /// Sets the periodic cell; every later distance follows its minimum-image convention.
    pub fn set_cell(&mut self, cell: UnitCell)
        ensures
            final(self)@ == (SystemModel { cell, ..old(self)@ }),
    {
        self.cell = cell;
    }

    /// Number of particles.
    pub fn size(&self) -> (r: usize)
        ensures
            r == self@.len(),
    {
        self.positions.len()
    }

    /// Appends a particle at `position`, in molecule `molecule`, with charge `charge`.
    pub fn add_particle(&mut self, position: Vector3D, molecule: u32, charge: i64) -> (r: Result<(), SystemError>)
        requires
            old(self)@.wf(),
        ensures
            final(self)@.wf(),
            old(self)@.len() >= MAX_PARTICLES ==> r == Err::<(), SystemError>(SystemError::TooManyParticles),
            old(self)@.len() < MAX_PARTICLES && !(position.wf() && -CHARGE_LIMIT <= charge <= CHARGE_LIMIT)
                ==> r == Err::<(), SystemError>(SystemError::OutOfRange),
            r is Ok <==> old(self)@.can_insert(position, charge),
            r is Ok ==> final(self)@ == old(self)@.inserted(position, molecule, charge),
            r is Err ==> final(self)@ == old(self)@,
    {
        if self.positions.len() >= MAX_PARTICLES {
            return Err(SystemError::TooManyParticles);
        }
        if !(-COORD_LIMIT <= position.x && position.x <= COORD_LIMIT && -COORD_LIMIT <= position.y
            && position.y <= COORD_LIMIT && -COORD_LIMIT <= position.z && position.z <= COORD_LIMIT
            && -CHARGE_LIMIT <= charge && charge <= CHARGE_LIMIT) {
            return Err(SystemError::OutOfRange);
        }
        self.positions.push(position);
        self.molecules.push(molecule);
        self.charges.push(charge);
        proof {
            assert forall|i: int| 0 <= i < self@.positions.len() implies (#[trigger] self@.positions[i]).wf() by {
                if i < old(self)@.positions.len() {
                    assert(self@.positions[i] == old(self)@.positions[i]);
                }
            }
            assert forall|i: int| 0 <= i < self@.charges.len() implies -CHARGE_LIMIT <= #[trigger] self@.charges[i] <= CHARGE_LIMIT by {
                if i < old(self)@.charges.len() {
                    assert(self@.charges[i] == old(self)@.charges[i]);
                }
            }
        }
        Ok(())
    }

    /// Whether the system is well formed: one molecule and one charge per particle,
    /// coordinates, charges, cell and pair potential within their limits.
    pub fn is_valid(&self) -> (r: bool)
        ensures
            r == self@.wf(),
    {
        let n = self.positions.len();
        if self.molecules.len() != n || self.charges.len() != n || n > MAX_PARTICLES {
            return false;
        }
        let cell_ok = match self.cell {
            UnitCell::Infinite => true,
            UnitCell::Orthorhombic { a, b, c } => 0 < a && a <= CELL_LIMIT && 0 < b && b <= CELL_LIMIT && 0 < c
                && c <= CELL_LIMIT,
        };
        let pair_ok = match self.pair {
            PairPotential::Null => true,
            PairPotential::SquareWell { sigma2, cutoff2, repulsion, depth } => -PAIR_LIMIT <= repulsion
                && repulsion <= PAIR_LIMIT && -PAIR_LIMIT <= depth && depth <= PAIR_LIMIT,
            PairPotential::Soft { stiffness, cutoff2 } => -STIFFNESS_LIMIT <= stiffness && stiffness
                <= STIFFNESS_LIMIT && 0 <= cutoff2 && cutoff2 <= KERNEL_CUTOFF2_LIMIT,
            PairPotential::ShiftedCoulomb { cutoff2 } => 0 <= cutoff2 && cutoff2 <= KERNEL_CUTOFF2_LIMIT,
        };
        if !cell_ok || !pair_ok {
            return false;
        }
        let mut i: usize = 0;
        while i < n
            invariant
                n == self.positions@.len(),
                n == self.charges@.len(),
                0 <= i <= n,
                forall|k: int| 0 <= k < i ==> (#[trigger] self.positions@[k]).wf(),
                forall|k: int| 0 <= k < i ==> -CHARGE_LIMIT <= #[trigger] self.charges@[k] <= CHARGE_LIMIT,
            decreases n - i,
        {
            let p = &self.positions[i];
            if !(-COORD_LIMIT <= p.x && p.x <= COORD_LIMIT && -COORD_LIMIT <= p.y && p.y <= COORD_LIMIT
                && -COORD_LIMIT <= p.z && p.z <= COORD_LIMIT) {
                return false;
            }
            if self.charges[i] < -CHARGE_LIMIT || self.charges[i] > CHARGE_LIMIT {
                return false;
            }
            i = i + 1;
        }
        let mut k: usize = 0;
        while k < self.bonds.len()
            invariant
                n == self.positions@.len(),
                n == self.charges@.len(),
                n == self.molecules@.len(),
                n <= MAX_PARTICLES,
                cell_ok == self.cell.wf(),
                pair_ok == self.pair.wf(),
                cell_ok && pair_ok,
                forall|k: int| 0 <= k < n ==> (#[trigger] self.positions@[k]).wf(),
                forall|k: int| 0 <= k < n ==> -CHARGE_LIMIT <= #[trigger] self.charges@[k] <= CHARGE_LIMIT,
                0 <= k <= self.bonds@.len(),
                forall|m: int| 0 <= m < k ==> (#[trigger] self.bonds@[m]).0 < n && self.bonds@[m].1 < n,
            decreases self.bonds@.len() - k,
        {
            let (a, b) = self.bonds[k];
            if a >= n || b >= n {
                assert(self@.bonds[k as int] == (a, b));
                return false;
            }
            k = k + 1;
        }
        true
    }

    /// Whether particles `i` and `j` are joined by a bond.
    pub fn are_bonded(&self, i: usize, j: usize) -> (r: bool)
        ensures
            r == self@.bonded(i as int, j as int),
    {
        let mut k: usize = 0;
        while k < self.bonds.len()
            invariant
                0 <= k <= self.bonds@.len(),
                forall|m: int| 0 <= m < k ==> (#[trigger] self.bonds@[m]) != (i, j) && self.bonds@[m] != (j, i),
            decreases self.bonds@.len() - k,
        {
            let (a, b) = self.bonds[k];
            if (a == i && b == j) || (a == j && b == i) {
                assert(self@.bonds[k as int] == ((i as int) as usize, (j as int) as usize) || self@.bonds[k as int] == (
                    (j as int) as usize,
                    (i as int) as usize,
                ));
                return true;
            }
            k = k + 1;
        }
        assert(!self@.bonded(i as int, j as int)) by {
            if self@.bonded(i as int, j as int) {
                let m = choose|m: int|
                    0 <= m < self@.bonds.len() && ((#[trigger] self@.bonds[m]) == ((i as int) as usize, (j as int) as usize)
                        || self@.bonds[m] == ((j as int) as usize, (i as int) as usize));
                assert(self.bonds@[m] != (i, j));
            }
        }
        false
    }

    /// Joins particles `i` and `j` by a bond; both must exist.
    pub fn add_bond(&mut self, i: usize, j: usize) -> (r: Result<(), SystemError>)
        requires
            old(self)@.wf(),
        ensures
            final(self)@.wf(),
            r is Ok <==> i < old(self)@.len() && j < old(self)@.len(),
            r is Ok ==> final(self)@ == (SystemModel { bonds: old(self)@.bonds.push((i, j)), ..old(self)@ }),
            r is Err ==> r == Err::<(), SystemError>(SystemError::InvalidTopology) && final(self)@ == old(self)@,
    {
        if i >= self.positions.len() || j >= self.positions.len() {
            return Err(SystemError::InvalidTopology);
        }
        self.bonds.push((i, j));
        proof {
            assert forall|k: int| 0 <= k < self@.bonds.len() implies (#[trigger] self@.bonds[k]).0 < self@.positions.len()
                && self@.bonds[k].1 < self@.positions.len() by {
                if k < old(self)@.bonds.len() {
                    assert(self@.bonds[k] == old(self)@.bonds[k]);
                }
            }
        }
        Ok(())
    }

    /// A copy of the system.
    pub fn duplicate(&self) -> (r: System)
        ensures
            r@ == self@,
    {
        System {
            positions: copy_vec(&self.positions),
            molecules: copy_vec(&self.molecules),
            charges: copy_vec(&self.charges),
            bonds: copy_vec(&self.bonds),
            cell: self.cell,
            pair: self.pair,
            restriction: self.restriction,
        }
    }

    /// Places the particles `idxes` at `newpos`, in order.
    pub fn move_particles(&mut self, idxes: &[usize], newpos: &[Vector3D])
        requires
            old(self)@.wf(),
            old(self)@.valid_move(idxes@, newpos@),
        ensures
            final(self)@ == old(self)@.moved(idxes@, newpos@),
            final(self)@.wf(),
    {
        let ghost s = self@;
        let mut m: usize = 0;
        while m < idxes.len()
            invariant
                s.wf(),
                s.valid_move(idxes@, newpos@),
                0 <= m <= idxes@.len(),
                self@ == (SystemModel { positions: apply_moves(s.positions, idxes@, newpos@, m as int), ..s }),
            decreases idxes@.len() - m,
        {
            proof {
                lemma_apply_moves(s, idxes@, newpos@, m as int);
            }
            self.positions.set(idxes[m], newpos[m]);
            m = m + 1;
        }
        proof {
            lemma_apply_moves(s, idxes@, newpos@, idxes@.len() as int);
        }
    }

    /// The force on every particle under the system's pair potential.
    pub fn forces(&self) -> (r: Vec<Vector3D>)
        requires
            self@.wf(),
        ensures
            r@.len() == self@.len(),
            forall|i: int|
                0 <= i < r@.len() ==> ((#[trigger] r@[i]).x as int, r@[i].y as int, r@[i].z as int) == force_sum(
                    self.pair,
                    self.restriction,
                    self@,
                    i,
                    self@.len() as int,
                ),
    {
        compute_forces(&self.pair, &self.restriction, self)
    }

    /// Energy of the system's pair potential over every unordered pair, from scratch.
    pub fn pair_energy(&self) -> (r: i64)
        requires
            self@.wf(),
        ensures
            r == self@.pair_energy(),
            -PAIR_TOTAL_LIMIT <= r <= PAIR_TOTAL_LIMIT,
    {
        compute_pair_energy(&self.pair, &self.restriction, self)
    }
}

} // verus!
