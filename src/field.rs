//! A uniform external field acting on the charges.
use vstd::prelude::*;
use crate::vector::{Vector3D, COORD_LIMIT};
use crate::pair::CHARGE_LIMIT;
use crate::system::{System, SystemModel, MAX_PARTICLES};
use crate::global::{GlobalPotential, DefaultGlobalCache, GLOBAL_LIMIT};

verus! {

/// Largest magnitude of a field component.
pub const FIELD_LIMIT: i64 = 64;

/// Largest magnitude of the energy of one particle in the field.
pub const SITE_LIMIT: i64 = 8796093022208;

/// A uniform field: a particle of charge `q` at `r` has energy `q * (field . r)`.
#[derive(Clone, Copy, Debug, PartialEq, Eq, Structural)]
pub struct ExternalField {
    pub field: Vector3D,
}

/// Energy of a charge `q` at `r` in the field `e`.
pub open spec fn site_energy(e: Vector3D, q: int, r: Vector3D) -> int {
    q * (e.x * r.x + e.y * r.y + e.z * r.z)
}

/// Field energy of the first `m` particles of `s`.
pub open spec fn field_sum(e: Vector3D, s: SystemModel, m: int) -> int
    decreases m,
{
    if m <= 0 {
        0
    } else {
        field_sum(e, s, m - 1) + site_energy(e, s.charges[m - 1] as int, s.positions[m - 1])
    }
}

impl ExternalField {
    pub fn new(field: Vector3D) -> (r: ExternalField)
        ensures
            r.field == field,
    {
        ExternalField { field }
    }
}

fn site(e: &Vector3D, q: i64, r: &Vector3D) -> (res: i64)
    requires
        -FIELD_LIMIT <= e.x <= FIELD_LIMIT,
        -FIELD_LIMIT <= e.y <= FIELD_LIMIT,
        -FIELD_LIMIT <= e.z <= FIELD_LIMIT,
        -CHARGE_LIMIT <= q <= CHARGE_LIMIT,
        r.wf(),
    ensures
        res == site_energy(*e, q as int, *r),
        -SITE_LIMIT <= res <= SITE_LIMIT,
{
    assert(-34359738368 <= e.x * r.x <= 34359738368) by (nonlinear_arith)
        requires
            -64 <= e.x <= 64,
            -COORD_LIMIT <= r.x <= COORD_LIMIT,
    ;
    assert(-34359738368 <= e.y * r.y <= 34359738368) by (nonlinear_arith)
        requires
            -64 <= e.y <= 64,
            -COORD_LIMIT <= r.y <= COORD_LIMIT,
    ;
    assert(-34359738368 <= e.z * r.z <= 34359738368) by (nonlinear_arith)
        requires
            -64 <= e.z <= 64,
            -COORD_LIMIT <= r.z <= COORD_LIMIT,
    ;
    let d = e.x * r.x + e.y * r.y + e.z * r.z;
    assert(-SITE_LIMIT <= q * d <= SITE_LIMIT) by (nonlinear_arith)
        requires
            -64 <= q <= 64,
            -3 * 34359738368 <= d <= 3 * 34359738368,
    ;
    q * d
}

impl GlobalPotential for ExternalField {
    open spec fn wf(&self) -> bool {
        -FIELD_LIMIT <= self.field.x <= FIELD_LIMIT && -FIELD_LIMIT <= self.field.y <= FIELD_LIMIT
            && -FIELD_LIMIT <= self.field.z <= FIELD_LIMIT
    }

    fn is_valid(&self) -> (r: bool) {
        -FIELD_LIMIT <= self.field.x && self.field.x <= FIELD_LIMIT && -FIELD_LIMIT <= self.field.y
            && self.field.y <= FIELD_LIMIT && -FIELD_LIMIT <= self.field.z && self.field.z <= FIELD_LIMIT
    }

    open spec fn energy_of(&self, s: SystemModel) -> int {
        field_sum(self.field, s, s.len() as int)
    }

    /// The force on a charge `q` is `-q * field`.
    open spec fn force_of(&self, s: SystemModel, i: int) -> (int, int, int) {
        let q = s.charges[i] as int;
        (-q * self.field.x, -q * self.field.y, -q * self.field.z)
    }

    fn forces(&self, system: &System) -> (r: Vec<Vector3D>) {
        let ghost s = system@;
        let n = system.positions.len();
        let mut forces: Vec<Vector3D> = Vec::new();
        let mut i: usize = 0;
        while i < n
            invariant
                s == system@,
                s.wf(),
                self.wf(),
                n == s.len(),
                0 <= i <= n,
                forces@.len() == i,
                forall|k: int|
                    0 <= k < i ==> ((#[trigger] forces@[k]).x as int, forces@[k].y as int, forces@[k].z as int)
                        == self.force_of(s, k),
            decreases n - i,
        {
            let q = system.charges[i];
            let e = self.field;
            assert(-4096 <= q * e.x <= 4096 && -4096 <= q * e.y <= 4096 && -4096 <= q * e.z <= 4096)
                by (nonlinear_arith)
                requires
                    -64 <= q <= 64,
                    -64 <= e.x <= 64,
                    -64 <= e.y <= 64,
                    -64 <= e.z <= 64,
            ;
            forces.push(Vector3D { x: -(q * e.x), y: -(q * e.y), z: -(q * e.z) });
            assert(-(q * e.x) == -q * e.x && -(q * e.y) == -q * e.y && -(q * e.z) == -q * e.z) by (nonlinear_arith);
            i = i + 1;
        }
        forces
    }

    fn energy(&self, system: &System) -> (r: i64) {
        let ghost s = system@;
        let n = system.positions.len();
        let mut acc: i64 = 0;
        let mut i: usize = 0;
        while i < n
            invariant
                s == system@,
                s.wf(),
                self.wf(),
                n == s.len(),
                0 <= i <= n,
                acc == field_sum(self.field, s, i as int),
                -(i * SITE_LIMIT) <= acc <= i * SITE_LIMIT,
            decreases n - i,
        {
            assert(i * SITE_LIMIT + SITE_LIMIT <= MAX_PARTICLES * SITE_LIMIT) by (nonlinear_arith)
                requires
                    i < MAX_PARTICLES,
            ;
            let e = site(&self.field, system.charges[i], &system.positions[i]);
            acc = acc + e;
            i = i + 1;
        }
        assert(n * SITE_LIMIT <= GLOBAL_LIMIT) by (nonlinear_arith)
            requires
                n <= MAX_PARTICLES,
        ;
        acc
    }
}

impl DefaultGlobalCache for ExternalField {}

} // verus!
