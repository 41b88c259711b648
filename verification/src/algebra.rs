//! The algebra behind the frame transforms, in exact arithmetic.
//!
//! The attitude matrix of a quaternion and the two velocity transforms are
//! polynomials in their inputs. This module writes them down over the
//! integers and proves the identities they satisfy. An identity between
//! polynomials with whole coefficients that holds for all integers holds in
//! every commutative ring, the real numbers among them; nothing here speaks
//! of rounding.

use vstd::prelude::*;

mod expansions;

verus! {

/// A vector of three numbers.
pub struct Triple {
    pub x: int,
    pub y: int,
    pub z: int,
}

/// A three-by-three matrix, given by its rows.
pub struct Grid {
    pub r0: Triple,
    pub r1: Triple,
    pub r2: Triple,
}

/// A quaternion: `q0`, `q1`, `q2` and `q3` in the order in which the
/// attitude formula reads them.
pub struct Quad {
    pub q0: int,
    pub q1: int,
    pub q2: int,
    pub q3: int,
}

/// Scalar product of two vectors.
pub open spec fn dot(a: Triple, b: Triple) -> int {
    a.x * b.x + a.y * b.y + a.z * b.z
}

/// Sum of two vectors.
pub open spec fn plus(a: Triple, b: Triple) -> Triple {
    Triple { x: a.x + b.x, y: a.y + b.y, z: a.z + b.z }
}

/// Difference of two vectors.
pub open spec fn minus(a: Triple, b: Triple) -> Triple {
    Triple { x: a.x - b.x, y: a.y - b.y, z: a.z - b.z }
}

/// The matrix with rows and columns exchanged.
pub open spec fn transpose(m: Grid) -> Grid {
    Grid {
        r0: Triple { x: m.r0.x, y: m.r1.x, z: m.r2.x },
        r1: Triple { x: m.r0.y, y: m.r1.y, z: m.r2.y },
        r2: Triple { x: m.r0.z, y: m.r1.z, z: m.r2.z },
    }
}

/// The matrix applied to a vector.
pub open spec fn apply(m: Grid, v: Triple) -> Triple {
    Triple { x: dot(m.r0, v), y: dot(m.r1, v), z: dot(m.r2, v) }
}

/// The product of a matrix with the transpose of another: entry `(i, j)` is
/// the scalar product of row `i` of `a` with row `j` of `b`.
pub open spec fn times_transposed(a: Grid, b: Grid) -> Grid {
    Grid {
        r0: Triple { x: dot(a.r0, b.r0), y: dot(a.r0, b.r1), z: dot(a.r0, b.r2) },
        r1: Triple { x: dot(a.r1, b.r0), y: dot(a.r1, b.r1), z: dot(a.r1, b.r2) },
        r2: Triple { x: dot(a.r2, b.r0), y: dot(a.r2, b.r1), z: dot(a.r2, b.r2) },
    }
}

/// The matrix with `s` on the diagonal and zero elsewhere.
pub open spec fn scalar_grid(s: int) -> Grid {
    Grid {
        r0: Triple { x: s, y: 0, z: 0 },
        r1: Triple { x: 0, y: s, z: 0 },
        r2: Triple { x: 0, y: 0, z: s },
    }
}

/// Determinant, expanded along the first row.
pub open spec fn det(m: Grid) -> int {
    m.r0.x * (m.r1.y * m.r2.z - m.r1.z * m.r2.y) - m.r0.y * (m.r1.x * m.r2.z - m.r1.z * m.r2.x)
        + m.r0.z * (m.r1.x * m.r2.y - m.r1.y * m.r2.x)
}

/// Whether the rows of `m` are orthonormal: `m` times its transpose is the
/// identity.
pub open spec fn is_orthonormal(m: Grid) -> bool {
    times_transposed(m, m) == scalar_grid(1)
}

/// Squared norm of a quaternion.
pub open spec fn norm_sq(q: Quad) -> int {
    q.q0 * q.q0 + q.q1 * q.q1 + q.q2 * q.q2 + q.q3 * q.q3
}

/// The attitude matrix of a quaternion.
pub open spec fn quat_dcm(q: Quad) -> Grid {
    Grid {
        r0: Triple {
            x: q.q0 * q.q0 - q.q1 * q.q1 - q.q2 * q.q2 + q.q3 * q.q3,
            y: 2 * (q.q0 * q.q1 - q.q2 * q.q3),
            z: 2 * (q.q0 * q.q2 + q.q1 * q.q3),
        },
        r1: Triple {
            x: 2 * (q.q0 * q.q1 + q.q2 * q.q3),
            y: q.q1 * q.q1 - q.q0 * q.q0 - q.q2 * q.q2 + q.q3 * q.q3,
            z: 2 * (q.q1 * q.q2 - q.q0 * q.q3),
        },
        r2: Triple {
            x: 2 * (q.q0 * q.q2 - q.q1 * q.q3),
            y: 2 * (q.q1 * q.q2 + q.q0 * q.q3),
            z: q.q2 * q.q2 - q.q0 * q.q0 - q.q1 * q.q1 + q.q3 * q.q3,
        },
    }
}

/// The angular-velocity matrix of a frame that turns about the third axis at
/// `rate`, applied to `p`.
pub open spec fn spin(rate: int, p: Triple) -> Triple {
    Triple { x: -rate * p.y, y: rate * p.x, z: 0 }
}

/// Velocity in the turning frame: the matrix applied to the inertial
/// velocity, less the spin of the position.
pub open spec fn to_turning(v: Triple, m: Grid, p: Triple, rate: int) -> Triple {
    minus(apply(m, v), spin(rate, p))
}

/// Velocity in the inertial frame: the transposed matrix applied to the
/// turning-frame velocity, plus the spin of the position.
pub open spec fn to_inertial(v: Triple, m: Grid, p: Triple, rate: int) -> Triple {
    plus(apply(transpose(m), v), spin(rate, p))
}

/// A factor spreads over a sum of three terms with a fourth added or taken away.
proof fn spread(a: int, p: int, q: int, r: int, s: int)
    ensures
        a * (p + q + r - s) == a * p + a * q + a * r - a * s,
        a * (p + q + r + s) == a * p + a * q + a * r + a * s,
{
    assert(a * (p + q + r - s) == a * p + a * q + a * r - a * s) by (nonlinear_arith);
    assert(a * (p + q + r + s) == a * p + a * q + a * r + a * s) by (nonlinear_arith);
}

/// A product of three factors may be grouped either way.
proof fn regroup(a: int, b: int, x: int)
    ensures
        a * (b * x) == (a * b) * x,
{
    assert(a * (b * x) == (a * b) * x) by (nonlinear_arith);
}

/// Three multiples of `x` add up to the multiple by the sum of the factors.
proof fn gather(p: int, q: int, r: int, x: int)
    ensures
        p * x + q * x + r * x == (p + q + r) * x,
        p + q + r == 1 ==> p * x + q * x + r * x == x,
        p + q + r == 0 ==> p * x + q * x + r * x == 0,
{
    assert(p * x + q * x + r * x == (p + q + r) * x) by (nonlinear_arith);
}

/// For a matrix with orthonormal columns, the transpose undoes the matrix:
/// applied to `m v - t` it gives `v` less the transpose applied to `t`, and
/// applied to `m v + t` it gives `v` plus the transpose applied to `t`.
pub proof fn transpose_undoes(m: Grid, v: Triple, t: Triple)
    requires
        is_orthonormal(transpose(m)),
    ensures
        apply(transpose(m), minus(apply(m, v), t)) == minus(v, apply(transpose(m), t)),
        apply(transpose(m), plus(apply(m, v), t)) == plus(v, apply(transpose(m), t)),
{
    let g = times_transposed(transpose(m), transpose(m));
    assert(g.r0 == scalar_grid(1).r0 && g.r1 == scalar_grid(1).r1 && g.r2 == scalar_grid(1).r2);
    spread(m.r0.x, m.r0.x * v.x, m.r0.y * v.y, m.r0.z * v.z, t.x);
    regroup(m.r0.x, m.r0.x, v.x);
    regroup(m.r0.x, m.r0.y, v.y);
    regroup(m.r0.x, m.r0.z, v.z);
    spread(m.r1.x, m.r1.x * v.x, m.r1.y * v.y, m.r1.z * v.z, t.y);
    regroup(m.r1.x, m.r1.x, v.x);
    regroup(m.r1.x, m.r1.y, v.y);
    regroup(m.r1.x, m.r1.z, v.z);
    spread(m.r2.x, m.r2.x * v.x, m.r2.y * v.y, m.r2.z * v.z, t.z);
    regroup(m.r2.x, m.r2.x, v.x);
    regroup(m.r2.x, m.r2.y, v.y);
    regroup(m.r2.x, m.r2.z, v.z);
    gather(m.r0.x * m.r0.x, m.r1.x * m.r1.x, m.r2.x * m.r2.x, v.x);
    gather(m.r0.x * m.r0.y, m.r1.x * m.r1.y, m.r2.x * m.r2.y, v.y);
    gather(m.r0.x * m.r0.z, m.r1.x * m.r1.z, m.r2.x * m.r2.z, v.z);
    spread(m.r0.y, m.r0.x * v.x, m.r0.y * v.y, m.r0.z * v.z, t.x);
    regroup(m.r0.y, m.r0.x, v.x);
    regroup(m.r0.y, m.r0.y, v.y);
    regroup(m.r0.y, m.r0.z, v.z);
    spread(m.r1.y, m.r1.x * v.x, m.r1.y * v.y, m.r1.z * v.z, t.y);
    regroup(m.r1.y, m.r1.x, v.x);
    regroup(m.r1.y, m.r1.y, v.y);
    regroup(m.r1.y, m.r1.z, v.z);
    spread(m.r2.y, m.r2.x * v.x, m.r2.y * v.y, m.r2.z * v.z, t.z);
    regroup(m.r2.y, m.r2.x, v.x);
    regroup(m.r2.y, m.r2.y, v.y);
    regroup(m.r2.y, m.r2.z, v.z);
    gather(m.r0.y * m.r0.x, m.r1.y * m.r1.x, m.r2.y * m.r2.x, v.x);
    gather(m.r0.y * m.r0.y, m.r1.y * m.r1.y, m.r2.y * m.r2.y, v.y);
    gather(m.r0.y * m.r0.z, m.r1.y * m.r1.z, m.r2.y * m.r2.z, v.z);
    spread(m.r0.z, m.r0.x * v.x, m.r0.y * v.y, m.r0.z * v.z, t.x);
    regroup(m.r0.z, m.r0.x, v.x);
    regroup(m.r0.z, m.r0.y, v.y);
    regroup(m.r0.z, m.r0.z, v.z);
    spread(m.r1.z, m.r1.x * v.x, m.r1.y * v.y, m.r1.z * v.z, t.y);
    regroup(m.r1.z, m.r1.x, v.x);
    regroup(m.r1.z, m.r1.y, v.y);
    regroup(m.r1.z, m.r1.z, v.z);
    spread(m.r2.z, m.r2.x * v.x, m.r2.y * v.y, m.r2.z * v.z, t.z);
    regroup(m.r2.z, m.r2.x, v.x);
    regroup(m.r2.z, m.r2.y, v.y);
    regroup(m.r2.z, m.r2.z, v.z);
    gather(m.r0.z * m.r0.x, m.r1.z * m.r1.x, m.r2.z * m.r2.x, v.x);
    gather(m.r0.z * m.r0.y, m.r1.z * m.r1.y, m.r2.z * m.r2.y, v.y);
    gather(m.r0.z * m.r0.z, m.r1.z * m.r1.z, m.r2.z * m.r2.z, v.z);
}

/// From the inertial frame to the turning frame and back.
///
/// For a matrix with orthonormal columns the round trip returns the velocity
/// plus what the transposed matrix changes of the position's spin. So it
/// returns the velocity itself exactly when the transposed matrix leaves that
/// spin as it is.
pub proof fn inertial_round_trip(v: Triple, m: Grid, p: Triple, rate: int)
    requires
        is_orthonormal(transpose(m)),
    ensures
        to_inertial(to_turning(v, m, p, rate), m, p, rate) == plus(
            v,
            minus(spin(rate, p), apply(transpose(m), spin(rate, p))),
        ),
        to_inertial(to_turning(v, m, p, rate), m, p, rate) == v <==> apply(
            transpose(m),
            spin(rate, p),
        ) == spin(rate, p),
{
    transpose_undoes(m, v, spin(rate, p));
}

/// From the turning frame to the inertial frame and back.
///
/// For a matrix with orthonormal rows the round trip returns the velocity
/// plus what the matrix changes of the position's spin. So it returns the
/// velocity itself exactly when the matrix leaves that spin as it is.
pub proof fn turning_round_trip(w: Triple, m: Grid, p: Triple, rate: int)
    requires
        is_orthonormal(m),
    ensures
        to_turning(to_inertial(w, m, p, rate), m, p, rate) == plus(
            w,
            minus(apply(m, spin(rate, p)), spin(rate, p)),
        ),
        to_turning(to_inertial(w, m, p, rate), m, p, rate) == w <==> apply(m, spin(rate, p))
            == spin(rate, p),
{
    let mt = transpose(m);
    assert(transpose(mt) == m);
    transpose_undoes(mt, w, spin(rate, p));
}

/// The two velocity transforms undo each other, in either order, for an
/// orthonormal matrix and a position whose spin the matrix leaves unchanged:
/// a position on the axis of rotation, a frame that does not turn, or the
/// identity matrix.
pub proof fn velocity_round_trips(v: Triple, m: Grid, p: Triple, rate: int)
    requires
        is_orthonormal(m),
        is_orthonormal(transpose(m)),
        apply(m, spin(rate, p)) == spin(rate, p),
    ensures
        to_inertial(to_turning(v, m, p, rate), m, p, rate) == v,
        to_turning(to_inertial(v, m, p, rate), m, p, rate) == v,
{
    let s = spin(rate, p);
    let zero = Triple { x: 0, y: 0, z: 0 };
    let mt = transpose(m);
    transpose_undoes(m, s, zero);
    assert(plus(apply(m, s), zero) == s);
    assert(apply(mt, zero) == zero) by {
        assert(mt.r0.x * 0 == 0 && mt.r0.y * 0 == 0 && mt.r0.z * 0 == 0);
        assert(mt.r1.x * 0 == 0 && mt.r1.y * 0 == 0 && mt.r1.z * 0 == 0);
        assert(mt.r2.x * 0 == 0 && mt.r2.y * 0 == 0 && mt.r2.z * 0 == 0);
    }
    assert(apply(mt, s) == s);
    inertial_round_trip(v, m, p, rate);
    turning_round_trip(v, m, p, rate);
}

/// A quarter turn about the third axis.
pub open spec fn quarter_turn() -> Grid {
    Grid {
        r0: Triple { x: 0, y: -1, z: 0 },
        r1: Triple { x: 1, y: 0, z: 0 },
        r2: Triple { x: 0, y: 0, z: 1 },
    }
}

/// The round trip does not return every velocity: after a quarter turn, a
/// body at rest at unit distance on the first axis comes back with a
/// velocity that is not zero.
pub proof fn round_trip_changes_some_velocity()
    ensures
        is_orthonormal(quarter_turn()),
        is_orthonormal(transpose(quarter_turn())),
        to_inertial(
            to_turning(Triple { x: 0, y: 0, z: 0 }, quarter_turn(), Triple { x: 1, y: 0, z: 0 }, 1),
            quarter_turn(),
            Triple { x: 1, y: 0, z: 0 },
            1,
        ) == (Triple { x: -1, y: 1, z: 0 }),
{
}

/// The attitude matrix of a quaternion, times its own transpose, is the
/// identity scaled by the square of the quaternion's squared norm: its rows
/// are orthogonal to each other and all of one length.
pub proof fn quat_dcm_rows(q: Quad)
    ensures
        times_transposed(quat_dcm(q), quat_dcm(q)) == scalar_grid(norm_sq(q) * norm_sq(q)),
{
    expansions::first_row_norm(q.q0, q.q1, q.q2, q.q3);
    expansions::second_row_norm(q.q0, q.q1, q.q2, q.q3);
    expansions::third_row_norm(q.q0, q.q1, q.q2, q.q3);
    expansions::first_second_rows(q.q0, q.q1, q.q2, q.q3);
    expansions::first_third_rows(q.q0, q.q1, q.q2, q.q3);
    expansions::second_third_rows(q.q0, q.q1, q.q2, q.q3);
    let m = quat_dcm(q);
    assert(dot(m.r1, m.r0) == dot(m.r0, m.r1)) by (nonlinear_arith);
    assert(dot(m.r2, m.r0) == dot(m.r0, m.r2)) by (nonlinear_arith);
    assert(dot(m.r2, m.r1) == dot(m.r1, m.r2)) by (nonlinear_arith);
}

/// The determinant of the attitude matrix is the cube of the quaternion's
/// squared norm.
pub proof fn quat_dcm_det(q: Quad)
    ensures
        det(quat_dcm(q)) == norm_sq(q) * (norm_sq(q) * norm_sq(q)),
{
    let m = quat_dcm(q);
    let n = norm_sq(q);
    let e0 = m.r0.x;
    let e1 = m.r0.y;
    let e2 = m.r0.z;
    let k0 = m.r1.y * m.r2.z - m.r1.z * m.r2.y;
    let k1 = m.r1.x * m.r2.z - m.r1.z * m.r2.x;
    let k2 = m.r1.x * m.r2.y - m.r1.y * m.r2.x;
    expansions::minor_of_first(q.q0, q.q1, q.q2, q.q3);
    expansions::minor_of_second(q.q0, q.q1, q.q2, q.q3);
    expansions::minor_of_third(q.q0, q.q1, q.q2, q.q3);
    expansions::first_row_norm(q.q0, q.q1, q.q2, q.q3);
    assert(k0 == n * e0);
    assert(k1 == -(n * e1));
    assert(k2 == n * e2);
    assert(e0 * e0 + e1 * e1 + e2 * e2 == n * n);
    assert(e0 * k0 == n * (e0 * e0)) by (nonlinear_arith)
        requires
            k0 == n * e0,
    ;
    assert(e1 * k1 == -(n * (e1 * e1))) by (nonlinear_arith)
        requires
            k1 == -(n * e1),
    ;
    assert(e2 * k2 == n * (e2 * e2)) by (nonlinear_arith)
        requires
            k2 == n * e2,
    ;
    assert(n * (e0 * e0) + n * (e1 * e1) + n * (e2 * e2) == n * (e0 * e0 + e1 * e1 + e2 * e2))
        by (nonlinear_arith);
    assert(det(m) == e0 * k0 - e1 * k1 + e2 * k2);
}

/// The attitude matrix of a unit quaternion is a rotation: its rows are
/// orthonormal and its determinant is one.
pub proof fn unit_quat_dcm_is_rotation(q: Quad)
    requires
        norm_sq(q) == 1,
    ensures
        is_orthonormal(quat_dcm(q)),
        det(quat_dcm(q)) == 1,
{
    quat_dcm_rows(q);
    quat_dcm_det(q);
}

} // verus!
