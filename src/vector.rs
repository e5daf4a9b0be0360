//! Positions on an integer (fixed-point) lattice.
use vstd::prelude::*;
use vstd::arithmetic::div_mod::lemma_fundamental_div_mod_converse;

verus! {

/// Largest magnitude a coordinate may take, so that squared distances fit in an `i64`.
pub const COORD_LIMIT: i64 = 536870912;

/// A point in space, each coordinate in fixed-point length units.
#[derive(Clone, Copy, Debug, PartialEq, Eq, Structural)]
pub struct Vector3D {
    pub x: i64,
    pub y: i64,
    pub z: i64,
}

impl Vector3D {
    /// Every coordinate lies within `[-COORD_LIMIT, COORD_LIMIT]`.
    pub open spec fn wf(&self) -> bool {
        -COORD_LIMIT <= self.x <= COORD_LIMIT && -COORD_LIMIT <= self.y <= COORD_LIMIT
            && -COORD_LIMIT <= self.z <= COORD_LIMIT
    }

    pub fn new(x: i64, y: i64, z: i64) -> (r: Vector3D)
        ensures
            r == (Vector3D { x, y, z }),
    {
        Vector3D { x, y, z }
    }
}

/// Squared euclidean distance between two points.
pub open spec fn dist2_spec(a: Vector3D, b: Vector3D) -> int {
    (a.x - b.x) * (a.x - b.x) + (a.y - b.y) * (a.y - b.y) + (a.z - b.z) * (a.z - b.z)
}

pub proof fn lemma_dist2_symmetric(a: Vector3D, b: Vector3D)
    ensures
        dist2_spec(a, b) == dist2_spec(b, a),
        dist2_spec(a, b) >= 0,
{
    assert((a.x - b.x) * (a.x - b.x) == (b.x - a.x) * (b.x - a.x)) by (nonlinear_arith);
    assert((a.y - b.y) * (a.y - b.y) == (b.y - a.y) * (b.y - a.y)) by (nonlinear_arith);
    assert((a.z - b.z) * (a.z - b.z) == (b.z - a.z) * (b.z - a.z)) by (nonlinear_arith);
    assert((a.x - b.x) * (a.x - b.x) >= 0) by (nonlinear_arith);
    assert((a.y - b.y) * (a.y - b.y) >= 0) by (nonlinear_arith);
    assert((a.z - b.z) * (a.z - b.z) >= 0) by (nonlinear_arith);
}

fn square_diff(a: i64, b: i64) -> (r: i64)
    requires
        -COORD_LIMIT <= a <= COORD_LIMIT,
        -COORD_LIMIT <= b <= COORD_LIMIT,
    ensures
        r == (a - b) * (a - b),
        0 <= r <= 0x1000_0000_0000_0000,
{
    let d: i64 = a - b;
    assert(0 <= d * d <= 0x1000_0000_0000_0000) by (nonlinear_arith)
        requires
            -2 * COORD_LIMIT <= d <= 2 * COORD_LIMIT,
    ;
    d * d
}

/// Squared distance between two points, computed exactly.
pub fn dist2(a: &Vector3D, b: &Vector3D) -> (r: i64)
    requires
        a.wf(),
        b.wf(),
    ensures
        r == dist2_spec(*a, *b),
        r >= 0,
{
    let dx = square_diff(a.x, b.x);
    let dy = square_diff(a.y, b.y);
    let dz = square_diff(a.z, b.z);
    dx + dy + dz
}

/// Largest side of a periodic cell.
pub const CELL_LIMIT: i64 = 1073741824;

/// The periodic boundary of a system.
#[derive(Clone, Copy, Debug, PartialEq, Eq, Structural)]
pub enum UnitCell {
    /// No periodicity.
    Infinite,
    /// A box with sides `a`, `b`, `c` along the axes, repeated in every direction.
    Orthorhombic { a: i64, b: i64, c: i64 },
}

/// The representative of `d` modulo `l` in `[-(l / 2), l - l / 2)`: the
/// minimum-image separation along one axis of period `l`.
pub open spec fn wrap(d: int, l: int) -> int {
    (d + l / 2) % l - l / 2
}

proof fn lemma_wrap(d: int, l: int)
    requires
        0 < l,
    ensures
        wrap(-d, l) * wrap(-d, l) == wrap(d, l) * wrap(d, l),
        -(l / 2) <= wrap(d, l) < l - l / 2,
{
    let h = l / 2;
    let q = (d + h) / l;
    let r = (d + h) % l;
    vstd::arithmetic::div_mod::lemma_fundamental_div_mod(d + h, l);
    assert(0 <= r < l);
    assert(d + h == q * l + r) by (nonlinear_arith)
        requires
            d + h == l * q + r,
    ;
    if l == 2 * h {
        if r == 0 {
            assert(-d + h == (-q + 1) * l + 0) by (nonlinear_arith)
                requires
                    d + h == q * l,
                    l == 2 * h,
            ;
            lemma_fundamental_div_mod_converse(-d + h, l, -q + 1, 0);
        } else {
            assert(-d + h == (-q) * l + (l - r)) by (nonlinear_arith)
                requires
                    d + h == q * l + r,
                    l == 2 * h,
            ;
            lemma_fundamental_div_mod_converse(-d + h, l, -q, l - r);
        }
    } else {
        assert(l == 2 * h + 1);
        assert(-d + h == (-q) * l + (l - 1 - r)) by (nonlinear_arith)
            requires
                d + h == q * l + r,
                l == 2 * h + 1,
        ;
        lemma_fundamental_div_mod_converse(-d + h, l, -q, l - 1 - r);
    }
    let w = wrap(d, l);
    let w2 = wrap(-d, l);
    assert(w2 == -w || w2 == w);
    assert(w2 * w2 == w * w) by (nonlinear_arith)
        requires
            w2 == -w || w2 == w,
    ;
}

proof fn lemma_square_bound(w: int, l: int)
    requires
        0 < l <= CELL_LIMIT,
        -(l / 2) <= w < l - l / 2,
    ensures
        0 <= w * w <= 0x1000_0000_0000_0000,
{
    assert(0 <= w * w <= 0x1000_0000_0000_0000) by (nonlinear_arith)
        requires
            -CELL_LIMIT <= w <= CELL_LIMIT,
    ;
}

impl UnitCell {
    pub open spec fn wf(&self) -> bool {
        match *self {
            UnitCell::Infinite => true,
            UnitCell::Orthorhombic { a, b, c } => 0 < a <= CELL_LIMIT && 0 < b <= CELL_LIMIT && 0 < c
                <= CELL_LIMIT,
        }
    }

    /// Squared distance between `p` and the nearest periodic image of `q`.
    pub open spec fn dist2_spec(&self, p: Vector3D, q: Vector3D) -> int {
        match *self {
            UnitCell::Infinite => dist2_spec(p, q),
            UnitCell::Orthorhombic { a, b, c } => {
                let dx = wrap(p.x - q.x, a as int);
                let dy = wrap(p.y - q.y, b as int);
                let dz = wrap(p.z - q.z, c as int);
                dx * dx + dy * dy + dz * dz
            },
        }
    }

    pub proof fn lemma_dist2(&self, p: Vector3D, q: Vector3D)
        requires
            self.wf(),
        ensures
            self.dist2_spec(p, q) == self.dist2_spec(q, p),
            self.dist2_spec(p, q) >= 0,
    {
        lemma_dist2_symmetric(p, q);
        match *self {
            UnitCell::Infinite => {},
            UnitCell::Orthorhombic { a, b, c } => {
                lemma_wrap(p.x - q.x, a as int);
                lemma_wrap(p.y - q.y, b as int);
                lemma_wrap(p.z - q.z, c as int);
                assert(q.x - p.x == -(p.x - q.x));
                assert(q.y - p.y == -(p.y - q.y));
                assert(q.z - p.z == -(p.z - q.z));
                lemma_square_bound(wrap(p.x - q.x, a as int), a as int);
                lemma_square_bound(wrap(p.y - q.y, b as int), b as int);
                lemma_square_bound(wrap(p.z - q.z, c as int), c as int);
            },
        }
    }

    /// Squared distance between `p` and the nearest periodic image of `q`.
    pub fn dist2(&self, p: &Vector3D, q: &Vector3D) -> (r: i64)
        requires
            self.wf(),
            p.wf(),
            q.wf(),
        ensures
            r == self.dist2_spec(*p, *q),
            r >= 0,
    {
        proof {
            self.lemma_dist2(*p, *q);
        }
        match *self {
            UnitCell::Infinite => dist2(p, q),
            UnitCell::Orthorhombic { a, b, c } => {
                let dx = wrap_axis(p.x - q.x, a);
                let dy = wrap_axis(p.y - q.y, b);
                let dz = wrap_axis(p.z - q.z, c);
                dx * dx + dy * dy + dz * dz
            },
        }
    }
}

impl UnitCell {
    /// Minimum-image separation `p - q` along each axis.
    pub open spec fn displacement_spec(&self, p: Vector3D, q: Vector3D) -> (int, int, int) {
        match *self {
            UnitCell::Infinite => (p.x - q.x, p.y - q.y, p.z - q.z),
            UnitCell::Orthorhombic { a, b, c } => (
                wrap(p.x - q.x, a as int),
                wrap(p.y - q.y, b as int),
                wrap(p.z - q.z, c as int),
            ),
        }
    }

    pub proof fn lemma_displacement(&self, p: Vector3D, q: Vector3D)
        requires
            self.wf(),
            p.wf(),
            q.wf(),
        ensures
            ({
                let (dx, dy, dz) = self.displacement_spec(p, q);
                &&& self.dist2_spec(p, q) == dx * dx + dy * dy + dz * dz
                &&& -2 * COORD_LIMIT <= dx <= 2 * COORD_LIMIT
                &&& -2 * COORD_LIMIT <= dy <= 2 * COORD_LIMIT
                &&& -2 * COORD_LIMIT <= dz <= 2 * COORD_LIMIT
            }),
    {
        match *self {
            UnitCell::Infinite => {},
            UnitCell::Orthorhombic { a, b, c } => {
                lemma_wrap(p.x - q.x, a as int);
                lemma_wrap(p.y - q.y, b as int);
                lemma_wrap(p.z - q.z, c as int);
            },
        }
    }

    /// Minimum-image separation `p - q`.
    pub fn displacement(&self, p: &Vector3D, q: &Vector3D) -> (r: Vector3D)
        requires
            self.wf(),
            p.wf(),
            q.wf(),
        ensures
            (r.x as int, r.y as int, r.z as int) == self.displacement_spec(*p, *q),
    {
        match *self {
            UnitCell::Infinite => Vector3D { x: p.x - q.x, y: p.y - q.y, z: p.z - q.z },
            UnitCell::Orthorhombic { a, b, c } => Vector3D {
                x: wrap_axis(p.x - q.x, a),
                y: wrap_axis(p.y - q.y, b),
                z: wrap_axis(p.z - q.z, c),
            },
        }
    }
}

fn wrap_axis(d: i64, l: i64) -> (r: i64)
    requires
        0 < l <= CELL_LIMIT,
        -2 * COORD_LIMIT <= d <= 2 * COORD_LIMIT,
    ensures
        r == wrap(d as int, l as int),
        -(l / 2) <= r < l - l / 2,
        0 <= r * r <= 0x1000_0000_0000_0000,
{
    proof {
        lemma_wrap(d as int, l as int);
        lemma_square_bound(wrap(d as int, l as int), l as int);
    }
    let h = l / 2;
    let m = (d + h).checked_rem_euclid(l);
    match m {
        Some(m) => m - h,
        None => {
            proof {
                assert(false);
            }
            0
        },
    }
}

} // verus!
