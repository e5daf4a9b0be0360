//! The energy cache: the current energy of the system, split into its pairwise and
//! global parts, and the cost of a proposed move, with commit and rollback.
use vstd::prelude::*;
use crate::vector::Vector3D;
use crate::system::{System, SystemModel, compute_pair_energy, compute_pair_move_cost, compute_pair_insertion_cost,
    PAIR_TOTAL_LIMIT};
use crate::global::{GlobalPotential, GlobalCache, GLOBAL_LIMIT};

verus! {

/// Errors of the energy cache.
#[derive(Clone, Copy, Debug, PartialEq, Eq, Structural)]
pub enum CacheError {
    /// `update` was called without a matching prior cost query.
    CacheInconsistency,
}

/// Total energy of `s`: its pairwise energy and the energy of the global potential `g`.
pub open spec fn full_energy<G: GlobalPotential>(g: &G, s: SystemModel) -> int {
    s.pair_energy() + g.energy_of(s)
}

/// A move whose cost was computed and which awaits acceptance or rejection.
struct StagedMove {
    idxes: Vec<usize>,
    newpos: Vec<Vector3D>,
    pair_delta: i64,
    global_delta: i64,
}

/// The energy of a system, kept in step with every accepted move.
pub struct EnergyCache {
    pair: i64,
    global: i64,
    staged: Option<StagedMove>,
}

fn slice_to_vec<T: Copy>(v: &[T]) -> (r: Vec<T>)
    ensures
        r@ == v@,
{
    let mut r: Vec<T> = Vec::new();
    let mut i: usize = 0;
    while i < v.len()
        invariant
            0 <= i <= v@.len(),
            r@ == v@.subrange(0, i as int),
        decreases v@.len() - i,
    {
        r.push(v[i]);
        i = i + 1;
        assert(r@ =~= v@.subrange(0, i as int));
    }
    assert(r@ =~= v@);
    r
}

fn same_indexes(a: &Vec<usize>, b: &[usize]) -> (r: bool)
    ensures
        r == (a@ == b@),
{
    if a.len() != b.len() {
        return false;
    }
    let mut i: usize = 0;
    while i < a.len()
        invariant
            a@.len() == b@.len(),
            0 <= i <= a@.len(),
            forall|j: int| 0 <= j < i ==> a@[j] == b@[j],
        decreases a@.len() - i,
    {
        if a[i] != b[i] {
            return false;
        }
        i = i + 1;
    }
    assert(a@ =~= b@);
    true
}

fn same_positions(a: &Vec<Vector3D>, b: &[Vector3D]) -> (r: bool)
    ensures
        r == (a@ == b@),
{
    if a.len() != b.len() {
        return false;
    }
    let mut i: usize = 0;
    while i < a.len()
        invariant
            a@.len() == b@.len(),
            0 <= i <= a@.len(),
            forall|j: int| 0 <= j < i ==> a@[j] == b@[j],
        decreases a@.len() - i,
    {
        if a[i] != b[i] {
            return false;
        }
        i = i + 1;
    }
    assert(a@ =~= b@);
    true
}

impl EnergyCache {
    /// The pairwise energy of the current state.
    pub closed spec fn pair_total(&self) -> int {
        self.pair as int
    }

    /// The global energy of the current state.
    pub closed spec fn global_total(&self) -> int {
        self.global as int
    }

    /// The move last costed and not yet committed or discarded, if any.
    pub closed spec fn staged(&self) -> Option<(Seq<usize>, Seq<Vector3D>)> {
        match self.staged {
            Some(m) => Some((m.idxes@, m.newpos@)),
            None => None,
        }
    }

    /// The staged move is a valid move of `s` whose recorded changes are exact.
    pub closed spec fn staged_exact<G: GlobalPotential>(&self, s: SystemModel, g: &G) -> bool {
        match self.staged {
            Some(m) => {
                &&& s.valid_move(m.idxes@, m.newpos@)
                &&& m.pair_delta == s.moved(m.idxes@, m.newpos@).pair_energy() - s.pair_energy()
                &&& m.global_delta == g.energy_of(s.moved(m.idxes@, m.newpos@)) - g.energy_of(s)
                &&& -PAIR_TOTAL_LIMIT <= s.moved(m.idxes@, m.newpos@).pair_energy() <= PAIR_TOTAL_LIMIT
                &&& -GLOBAL_LIMIT <= g.energy_of(s.moved(m.idxes@, m.newpos@)) <= GLOBAL_LIMIT
            },
            None => false,
        }
    }

    /// The cache holds the energy of `s` under `g`.
    pub open spec fn consistent<G: GlobalPotential>(&self, s: SystemModel, g: &G) -> bool {
        &&& self.pair_total() == s.pair_energy()
        &&& self.global_total() == g.energy_of(s)
        &&& -PAIR_TOTAL_LIMIT <= self.pair_total() <= PAIR_TOTAL_LIMIT
        &&& -GLOBAL_LIMIT <= self.global_total() <= GLOBAL_LIMIT
        &&& (self.staged() is Some ==> self.staged_exact(s, g))
    }

    /// The total energy the cache holds.
    pub open spec fn total_spec(&self) -> int {
        self.pair_total() + self.global_total()
    }

    /// Builds the cache from a full evaluation of the energy of `system`.
    pub fn new<G: GlobalPotential>(system: &System, g: &G) -> (r: EnergyCache)
        requires
            system@.wf(),
            g.wf(),
        ensures
            r.consistent(system@, g),
            r.staged() is None,
    {
        let pair = compute_pair_energy(&system.pair, &system.restriction, system);
        let global = g.energy(system);
        EnergyCache { pair, global, staged: None }
    }

    /// The total energy of the current state.
    pub fn total(&self) -> (r: i64)
        requires
            -PAIR_TOTAL_LIMIT <= self.pair_total() <= PAIR_TOTAL_LIMIT,
            -GLOBAL_LIMIT <= self.global_total() <= GLOBAL_LIMIT,
        ensures
            r == self.total_spec(),
    {
        self.pair + self.global
    }

    /// The change of the total energy when the particles `idxes` of `system` are
    /// placed at `newpos`. Neither `system` nor the energy held changes; the move is
    /// remembered for a later `update` or `discard`.
    pub fn move_particles_cost<G: GlobalCache>(
        &mut self,
        system: &System,
        g: &G,
        idxes: &[usize],
        newpos: &[Vector3D],
    ) -> (r: i64)
        requires
            old(self).consistent(system@, g),
            system@.wf(),
            g.wf(),
            system@.valid_move(idxes@, newpos@),
        ensures
            r == full_energy(g, system@.moved(idxes@, newpos@)) - full_energy(g, system@),
            final(self).consistent(system@, g),
            final(self).pair_total() == old(self).pair_total(),
            final(self).global_total() == old(self).global_total(),
            final(self).staged() == Some((idxes@, newpos@)),
    {
        let pair_delta = compute_pair_move_cost(&system.pair, &system.restriction, system, idxes, newpos);
        let global_delta = g.move_particles_cost(system, idxes, newpos);
        self.staged = Some(
            StagedMove { idxes: slice_to_vec(idxes), newpos: slice_to_vec(newpos), pair_delta, global_delta },
        );
        pair_delta + global_delta
    }

    /// The change of the total energy if a particle at `pos`, in molecule `mol`, with
    /// charge `q`, were added to `system`. The pairwise part is computed from the new
    /// pairs alone; nothing is changed.
    pub fn particle_insertion_cost<G: GlobalPotential>(
        &self,
        system: &System,
        g: &G,
        pos: &Vector3D,
        mol: u32,
        q: i64,
    ) -> (r: i64)
        requires
            self.consistent(system@, g),
            system@.wf(),
            g.wf(),
            system@.can_insert(*pos, q),
        ensures
            r == full_energy(g, system@.inserted(*pos, mol, q)) - full_energy(g, system@),
    {
        let pair_delta = compute_pair_insertion_cost(&system.pair, &system.restriction, system, pos, mol, q);
        let mut bigger = system.duplicate();
        let added = bigger.add_particle(*pos, mol, q);
        assert(added is Ok);
        let new_global = g.energy(&bigger);
        pair_delta + (new_global - self.global)
    }

    /// Forgets the staged move: the move was rejected.
    pub fn discard(&mut self)
        ensures
            final(self).pair_total() == old(self).pair_total(),
            final(self).global_total() == old(self).global_total(),
            final(self).staged() is None,
    {
        self.staged = None;
    }

    /// Commits the staged move: places the particles of `system` and acknowledges the
    /// move to `g`. Fails, changing nothing, unless the move was the last one costed.
    pub fn update<G: GlobalCache>(
        &mut self,
        system: &mut System,
        g: &mut G,
        idxes: &[usize],
        newpos: &[Vector3D],
    ) -> (r: Result<(), CacheError>)
        requires
            old(self).consistent(old(system)@, &*old(g)),
            old(system)@.wf(),
            old(g).wf(),
        ensures
            r is Ok <==> old(self).staged() == Some((idxes@, newpos@)),
            r is Ok ==> {
                &&& final(system)@ == old(system)@.moved(idxes@, newpos@)
                &&& final(system)@.wf()
                &&& final(g).wf()
                &&& final(self).consistent(final(system)@, &*final(g))
                &&& final(self).total_spec() == full_energy(&*final(g), final(system)@)
                &&& final(self).total_spec() == full_energy(&*old(g), old(system)@.moved(idxes@, newpos@))
                &&& final(self).staged() is None
            },
            r == Err::<(), CacheError>(CacheError::CacheInconsistency) ==> {
                &&& final(system)@ == old(system)@
                &&& *final(g) == *old(g)
                &&& *final(self) == *old(self)
            },
    {
        let (pair_delta, global_delta) = match &self.staged {
            Some(m) => {
                if !(same_indexes(&m.idxes, idxes) && same_positions(&m.newpos, newpos)) {
                    return Err(CacheError::CacheInconsistency);
                }
                (m.pair_delta, m.global_delta)
            },
            None => {
                return Err(CacheError::CacheInconsistency);
            },
        };
        self.staged = None;
        system.move_particles(idxes, newpos);
        g.update();
        self.pair = self.pair + pair_delta;
        self.global = self.global + global_delta;
        Ok(())
    }
}

/// The cache holds the full energy of every state it is consistent with: after
/// building, after costing a move, after committing it and after discarding it.
pub proof fn lemma_cache_total_is_full_energy<G: GlobalPotential>(cache: &EnergyCache, s: SystemModel, g: &G)
    requires
        cache.consistent(s, g),
    ensures
        cache.total_spec() == full_energy(g, s),
{
}

/// A rejected move leaves the cache as it was before the move was costed.
pub proof fn lemma_rejection_leaves_no_trace(before: &EnergyCache, costed: &EnergyCache, after: &EnergyCache)
    requires
        before.staged() is None,
        costed.pair_total() == before.pair_total(),
        costed.global_total() == before.global_total(),
        after.pair_total() == costed.pair_total(),
        after.global_total() == costed.global_total(),
        after.staged() is None,
    ensures
        *after == *before,
{
}

/// Discarding a costed move leaves the cache consistent with the unchanged system,
/// holding its full energy.
pub proof fn lemma_discard_keeps_full_energy<G: GlobalPotential>(
    costed: &EnergyCache,
    after: &EnergyCache,
    s: SystemModel,
    g: &G,
)
    requires
        costed.consistent(s, g),
        after.pair_total() == costed.pair_total(),
        after.global_total() == costed.global_total(),
        after.staged() is None,
    ensures
        after.consistent(s, g),
        after.total_spec() == full_energy(g, s),
{
}

} // verus!
