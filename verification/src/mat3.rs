//! 3x3 matrices over exact rationals: inversion and homogeneous 2D transform.
//!
//! A matrix is nine integer entries in row-major order over one shared
//! positive denominator, so multiplication and the adjugate inverse are pure
//! integer arithmetic and every contract is exact. The inverse of a matrix
//! with exactly zero determinant is the identity matrix, by definition, not
//! an error; the inverse of any other matrix is proved to be a two-sided
//! inverse ([`lemma_mat3_inverse`]).

use vstd::prelude::*;
use crate::rat::Rat;
use crate::rat::Scal;
use crate::rat::rat_add;
use crate::rat::rat_mul;
use crate::vec2::Vec2;
use crate::vec2::vec2_wf;
use crate::vec2::vec2_in;
use crate::rat::lemma_add_in;
use crate::rat::lemma_mul_in;
use crate::rat::lemma_mul_bound;

verus! {

/// Mathematical value of a 3x3 matrix: nine unbounded integer entries in
/// row-major order over one denominator.
pub ghost struct Mat3V {

    pub e0: int,
    pub e1: int,
    pub e2: int,
    pub e3: int,
    pub e4: int,
    pub e5: int,
    pub e6: int,
    pub e7: int,
    pub e8: int,
    pub d: int,
}

/// An exact 3x3 matrix: entry `(r, c)` has the value `m(3*r+c) / d`.
#[derive(Clone, Copy, Debug, PartialEq, Eq, Structural)]
pub struct Mat3 {
    pub m0: i128,
    pub m1: i128,
    pub m2: i128,
    pub m3: i128,
    pub m4: i128,
    pub m5: i128,
    pub m6: i128,
    pub m7: i128,
    pub m8: i128,
    pub d: i128,
}

impl View for Mat3 {
    type V = Mat3V;

    open spec fn view(&self) -> Mat3V {
        Mat3V { e0: self.m0 as int, e1: self.m1 as int, e2: self.m2 as int, e3: self.m3 as int, e4: self.m4 as int, e5: self.m5 as int, e6: self.m6 as int, e7: self.m7 as int, e8: self.m8 as int, d: self.d as int }
    }
}

impl Mat3 {
    /// Well-formed: positive denominator.
    pub open spec fn wf(self) -> bool {
        self.d >= 1
    }
}

/// All entries bounded by `b` in magnitude, the denominator in `[1, b]`.
pub open spec fn mat3_in(m: Mat3, b: int) -> bool {

    -b <= m.m0 <= b && -b <= m.m1 <= b && -b <= m.m2 <= b && -b <= m.m3 <= b && -b <= m.m4 <= b && -b <= m.m5 <= b && -b <= m.m6 <= b && -b <= m.m7 <= b && -b <= m.m8 <= b
        && 1 <= m.d <= b
}

/// The identity matrix value.
pub open spec fn m3_id() -> Mat3V {
    Mat3V { e0: 1, e1: 0, e2: 0, e3: 0, e4: 1, e5: 0, e6: 0, e7: 0, e8: 1, d: 1 }
}

/// Product of two matrix values (row times column, denominators multiply).
pub open spec fn m3_mul(a: Mat3V, b: Mat3V) -> Mat3V {
    Mat3V {

        e0: a.e0 * b.e0 + a.e1 * b.e3 + a.e2 * b.e6,
        e1: a.e0 * b.e1 + a.e1 * b.e4 + a.e2 * b.e7,
        e2: a.e0 * b.e2 + a.e1 * b.e5 + a.e2 * b.e8,
        e3: a.e3 * b.e0 + a.e4 * b.e3 + a.e5 * b.e6,
        e4: a.e3 * b.e1 + a.e4 * b.e4 + a.e5 * b.e7,
        e5: a.e3 * b.e2 + a.e4 * b.e5 + a.e5 * b.e8,
        e6: a.e6 * b.e0 + a.e7 * b.e3 + a.e8 * b.e6,
        e7: a.e6 * b.e1 + a.e7 * b.e4 + a.e8 * b.e7,
        e8: a.e6 * b.e2 + a.e7 * b.e5 + a.e8 * b.e8,
        d: a.d * b.d,
    }
}

/// Numerator of the determinant; the determinant itself is this over `d^3`,
/// so it is zero exactly when this is zero.
pub open spec fn m3_det_n(m: Mat3V) -> int {
    m.e0 * (m.e4 * m.e8 - m.e5 * m.e7) - m.e1 * (m.e3 * m.e8 - m.e5 * m.e6) + m.e2 * (m.e3 * m.e7
        - m.e4 * m.e6)
}

/// Equality of the rational values of two matrices: entrywise cross products.
pub open spec fn m3_equiv(a: Mat3V, b: Mat3V) -> bool {

    a.e0 * b.d == b.e0 * a.d && a.e1 * b.d == b.e1 * a.d && a.e2 * b.d == b.e2 * a.d && a.e3 * b.d == b.e3 * a.d && a.e4 * b.d == b.e4 * a.d && a.e5 * b.d == b.e5 * a.d && a.e6 * b.d == b.e6 * a.d && a.e7 * b.d == b.e7 * a.d && a.e8 * b.d == b.e8 * a.d
}

/// The value of the adjugate inverse: cofactor-transpose entries scaled by
/// the denominator, over the determinant numerator, signs normalised.
pub open spec fn m3_inv_v(m: Mat3V) -> Mat3V {
    let det = m3_det_n(m);
    if det >= 0 {
        Mat3V {

            e0: (m.e4 * m.e8 - m.e5 * m.e7) * m.d,
            e1: (m.e2 * m.e7 - m.e1 * m.e8) * m.d,
            e2: (m.e1 * m.e5 - m.e2 * m.e4) * m.d,
            e3: (m.e5 * m.e6 - m.e3 * m.e8) * m.d,
            e4: (m.e0 * m.e8 - m.e2 * m.e6) * m.d,
            e5: (m.e2 * m.e3 - m.e0 * m.e5) * m.d,
            e6: (m.e3 * m.e7 - m.e4 * m.e6) * m.d,
            e7: (m.e1 * m.e6 - m.e0 * m.e7) * m.d,
            e8: (m.e0 * m.e4 - m.e1 * m.e3) * m.d,
            d: det,
        }
    } else {
        Mat3V {
            e0: -((m.e4 * m.e8 - m.e5 * m.e7) * m.d),
            e1: -((m.e2 * m.e7 - m.e1 * m.e8) * m.d),
            e2: -((m.e1 * m.e5 - m.e2 * m.e4) * m.d),
            e3: -((m.e5 * m.e6 - m.e3 * m.e8) * m.d),
            e4: -((m.e0 * m.e8 - m.e2 * m.e6) * m.d),
            e5: -((m.e2 * m.e3 - m.e0 * m.e5) * m.d),
            e6: -((m.e3 * m.e7 - m.e4 * m.e6) * m.d),
            e7: -((m.e1 * m.e6 - m.e0 * m.e7) * m.d),
            e8: -((m.e0 * m.e4 - m.e1 * m.e3) * m.d),
            d: -det,
        }
    }
}

/// A three-term dot product against cofactors scaled by `d`, in all the
/// sign and order variants the inverse proof needs, from the unscaled sum.
proof fn lemma_dot3_scaled(x0: int, x1: int, x2: int, c0: int, c1: int, c2: int, d: int, s: int)
    requires
        x0 * c0 + x1 * c1 + x2 * c2 == s,
    ensures
        x0 * (c0 * d) + x1 * (c1 * d) + x2 * (c2 * d) == d * s,
        x0 * (-(c0 * d)) + x1 * (-(c1 * d)) + x2 * (-(c2 * d)) == d * (-s),
        (c0 * d) * x0 + (c1 * d) * x1 + (c2 * d) * x2 == d * s,
        (-(c0 * d)) * x0 + (-(c1 * d)) * x1 + (-(c2 * d)) * x2 == d * (-s),
{
    assert(x0 * (c0 * d) == (x0 * c0) * d) by (nonlinear_arith);
    assert(x1 * (c1 * d) == (x1 * c1) * d) by (nonlinear_arith);
    assert(x2 * (c2 * d) == (x2 * c2) * d) by (nonlinear_arith);
    assert((x0 * c0) * d + (x1 * c1) * d + (x2 * c2) * d == (x0 * c0 + x1 * c1 + x2 * c2) * d)
        by (nonlinear_arith);
    assert(s * d == d * s) by (nonlinear_arith);
    assert(x0 * (-(c0 * d)) == -((x0 * c0) * d)) by (nonlinear_arith);
    assert(x1 * (-(c1 * d)) == -((x1 * c1) * d)) by (nonlinear_arith);
    assert(x2 * (-(c2 * d)) == -((x2 * c2) * d)) by (nonlinear_arith);
    assert(-(s * d) == d * (-s)) by (nonlinear_arith);
    assert((c0 * d) * x0 == x0 * (c0 * d)) by (nonlinear_arith);
    assert((c1 * d) * x1 == x1 * (c1 * d)) by (nonlinear_arith);
    assert((c2 * d) * x2 == x2 * (c2 * d)) by (nonlinear_arith);
    assert((-(c0 * d)) * x0 == x0 * (-(c0 * d))) by (nonlinear_arith);
    assert((-(c1 * d)) * x1 == x1 * (-(c1 * d))) by (nonlinear_arith);
    assert((-(c2 * d)) * x2 == x2 * (-(c2 * d))) by (nonlinear_arith);
}

/// The adjugate inverse is a two-sided inverse: for every matrix value `m`
/// with positive denominator and nonzero determinant, `m * m3_inv_v(m)` and
/// `m3_inv_v(m) * m` both equal the identity as rational matrices.
pub proof fn lemma_mat3_inverse(m: Mat3V)
    requires
        m.d >= 1,
        m3_det_n(m) != 0,
    ensures
        m3_equiv(m3_mul(m, m3_inv_v(m)), m3_id()),
        m3_equiv(m3_mul(m3_inv_v(m), m), m3_id()),
{
    let det = m3_det_n(m);
    // The determinant, fully expanded.
    assert(m.e0 * (m.e4 * m.e8 - m.e5 * m.e7) == m.e0 * (m.e4 * m.e8) - m.e0 * (m.e5 * m.e7))
        by (nonlinear_arith);
    assert(m.e1 * (m.e3 * m.e8 - m.e5 * m.e6) == m.e1 * (m.e3 * m.e8) - m.e1 * (m.e5 * m.e6))
        by (nonlinear_arith);
    assert(m.e2 * (m.e3 * m.e7 - m.e4 * m.e6) == m.e2 * (m.e3 * m.e7) - m.e2 * (m.e4 * m.e6))
        by (nonlinear_arith);
    // Each row of the matrix against its own cofactors gives the determinant ...
    assert(m.e0 * (m.e4 * m.e8 - m.e5 * m.e7) == m.e0 * (m.e4 * m.e8) - m.e0 * (m.e5 * m.e7))
        by (nonlinear_arith);
    assert(m.e1 * (m.e5 * m.e6 - m.e3 * m.e8) == m.e1 * (m.e5 * m.e6) - m.e1 * (m.e3 * m.e8))
        by (nonlinear_arith);
    assert(m.e2 * (m.e3 * m.e7 - m.e4 * m.e6) == m.e2 * (m.e3 * m.e7) - m.e2 * (m.e4 * m.e6))
        by (nonlinear_arith);
    assert(m.e0 * (m.e4 * m.e8 - m.e5 * m.e7) + m.e1 * (m.e5 * m.e6 - m.e3 * m.e8) + m.e2 * (m.e3 * m.e7 - m.e4 * m.e6) == (m.e0 * (m.e4 * m.e8 - m.e5 * m.e7) - m.e1 * (m.e3 * m.e8 - m.e5 * m.e6) + m.e2 * (m.e3 * m.e7 - m.e4 * m.e6)));
    assert(m.e3 * (m.e2 * m.e7 - m.e1 * m.e8) == m.e3 * (m.e2 * m.e7) - m.e3 * (m.e1 * m.e8))
        by (nonlinear_arith);
    assert(m.e4 * (m.e0 * m.e8 - m.e2 * m.e6) == m.e4 * (m.e0 * m.e8) - m.e4 * (m.e2 * m.e6))
        by (nonlinear_arith);
    assert(m.e5 * (m.e1 * m.e6 - m.e0 * m.e7) == m.e5 * (m.e1 * m.e6) - m.e5 * (m.e0 * m.e7))
        by (nonlinear_arith);
    assert(m.e3 * (m.e2 * m.e7) == m.e2 * (m.e3 * m.e7)) by (nonlinear_arith);
    assert(m.e3 * (m.e1 * m.e8) == m.e1 * (m.e3 * m.e8)) by (nonlinear_arith);
    assert(m.e4 * (m.e0 * m.e8) == m.e0 * (m.e4 * m.e8)) by (nonlinear_arith);
    assert(m.e4 * (m.e2 * m.e6) == m.e2 * (m.e4 * m.e6)) by (nonlinear_arith);
    assert(m.e5 * (m.e1 * m.e6) == m.e1 * (m.e5 * m.e6)) by (nonlinear_arith);
    assert(m.e5 * (m.e0 * m.e7) == m.e0 * (m.e5 * m.e7)) by (nonlinear_arith);
    assert(m.e3 * (m.e2 * m.e7 - m.e1 * m.e8) + m.e4 * (m.e0 * m.e8 - m.e2 * m.e6) + m.e5 * (m.e1 * m.e6 - m.e0 * m.e7) == (m.e0 * (m.e4 * m.e8 - m.e5 * m.e7) - m.e1 * (m.e3 * m.e8 - m.e5 * m.e6) + m.e2 * (m.e3 * m.e7 - m.e4 * m.e6)));
    assert(m.e6 * (m.e1 * m.e5 - m.e2 * m.e4) == m.e6 * (m.e1 * m.e5) - m.e6 * (m.e2 * m.e4))
        by (nonlinear_arith);
    assert(m.e7 * (m.e2 * m.e3 - m.e0 * m.e5) == m.e7 * (m.e2 * m.e3) - m.e7 * (m.e0 * m.e5))
        by (nonlinear_arith);
    assert(m.e8 * (m.e0 * m.e4 - m.e1 * m.e3) == m.e8 * (m.e0 * m.e4) - m.e8 * (m.e1 * m.e3))
        by (nonlinear_arith);
    assert(m.e6 * (m.e1 * m.e5) == m.e1 * (m.e5 * m.e6)) by (nonlinear_arith);
    assert(m.e6 * (m.e2 * m.e4) == m.e2 * (m.e4 * m.e6)) by (nonlinear_arith);
    assert(m.e7 * (m.e2 * m.e3) == m.e2 * (m.e3 * m.e7)) by (nonlinear_arith);
    assert(m.e7 * (m.e0 * m.e5) == m.e0 * (m.e5 * m.e7)) by (nonlinear_arith);
    assert(m.e8 * (m.e0 * m.e4) == m.e0 * (m.e4 * m.e8)) by (nonlinear_arith);
    assert(m.e8 * (m.e1 * m.e3) == m.e1 * (m.e3 * m.e8)) by (nonlinear_arith);
    assert(m.e6 * (m.e1 * m.e5 - m.e2 * m.e4) + m.e7 * (m.e2 * m.e3 - m.e0 * m.e5) + m.e8 * (m.e0 * m.e4 - m.e1 * m.e3) == (m.e0 * (m.e4 * m.e8 - m.e5 * m.e7) - m.e1 * (m.e3 * m.e8 - m.e5 * m.e6) + m.e2 * (m.e3 * m.e7 - m.e4 * m.e6)));
    // ... as does each column against the cofactors of its own column ...
    assert(m.e0 * (m.e4 * m.e8 - m.e5 * m.e7) == m.e0 * (m.e4 * m.e8) - m.e0 * (m.e5 * m.e7))
        by (nonlinear_arith);
    assert(m.e3 * (m.e2 * m.e7 - m.e1 * m.e8) == m.e3 * (m.e2 * m.e7) - m.e3 * (m.e1 * m.e8))
        by (nonlinear_arith);
    assert(m.e6 * (m.e1 * m.e5 - m.e2 * m.e4) == m.e6 * (m.e1 * m.e5) - m.e6 * (m.e2 * m.e4))
        by (nonlinear_arith);
    assert(m.e3 * (m.e2 * m.e7) == m.e2 * (m.e3 * m.e7)) by (nonlinear_arith);
    assert(m.e3 * (m.e1 * m.e8) == m.e1 * (m.e3 * m.e8)) by (nonlinear_arith);
    assert(m.e6 * (m.e1 * m.e5) == m.e1 * (m.e5 * m.e6)) by (nonlinear_arith);
    assert(m.e6 * (m.e2 * m.e4) == m.e2 * (m.e4 * m.e6)) by (nonlinear_arith);
    assert(m.e0 * (m.e4 * m.e8 - m.e5 * m.e7) + m.e3 * (m.e2 * m.e7 - m.e1 * m.e8) + m.e6 * (m.e1 * m.e5 - m.e2 * m.e4) == (m.e0 * (m.e4 * m.e8 - m.e5 * m.e7) - m.e1 * (m.e3 * m.e8 - m.e5 * m.e6) + m.e2 * (m.e3 * m.e7 - m.e4 * m.e6)));
    assert(m.e1 * (m.e5 * m.e6 - m.e3 * m.e8) == m.e1 * (m.e5 * m.e6) - m.e1 * (m.e3 * m.e8))
        by (nonlinear_arith);
    assert(m.e4 * (m.e0 * m.e8 - m.e2 * m.e6) == m.e4 * (m.e0 * m.e8) - m.e4 * (m.e2 * m.e6))
        by (nonlinear_arith);
    assert(m.e7 * (m.e2 * m.e3 - m.e0 * m.e5) == m.e7 * (m.e2 * m.e3) - m.e7 * (m.e0 * m.e5))
        by (nonlinear_arith);
    assert(m.e4 * (m.e0 * m.e8) == m.e0 * (m.e4 * m.e8)) by (nonlinear_arith);
    assert(m.e4 * (m.e2 * m.e6) == m.e2 * (m.e4 * m.e6)) by (nonlinear_arith);
    assert(m.e7 * (m.e2 * m.e3) == m.e2 * (m.e3 * m.e7)) by (nonlinear_arith);
    assert(m.e7 * (m.e0 * m.e5) == m.e0 * (m.e5 * m.e7)) by (nonlinear_arith);
    assert(m.e1 * (m.e5 * m.e6 - m.e3 * m.e8) + m.e4 * (m.e0 * m.e8 - m.e2 * m.e6) + m.e7 * (m.e2 * m.e3 - m.e0 * m.e5) == (m.e0 * (m.e4 * m.e8 - m.e5 * m.e7) - m.e1 * (m.e3 * m.e8 - m.e5 * m.e6) + m.e2 * (m.e3 * m.e7 - m.e4 * m.e6)));
    assert(m.e2 * (m.e3 * m.e7 - m.e4 * m.e6) == m.e2 * (m.e3 * m.e7) - m.e2 * (m.e4 * m.e6))
        by (nonlinear_arith);
    assert(m.e5 * (m.e1 * m.e6 - m.e0 * m.e7) == m.e5 * (m.e1 * m.e6) - m.e5 * (m.e0 * m.e7))
        by (nonlinear_arith);
    assert(m.e8 * (m.e0 * m.e4 - m.e1 * m.e3) == m.e8 * (m.e0 * m.e4) - m.e8 * (m.e1 * m.e3))
        by (nonlinear_arith);
    assert(m.e5 * (m.e1 * m.e6) == m.e1 * (m.e5 * m.e6)) by (nonlinear_arith);
    assert(m.e5 * (m.e0 * m.e7) == m.e0 * (m.e5 * m.e7)) by (nonlinear_arith);
    assert(m.e8 * (m.e0 * m.e4) == m.e0 * (m.e4 * m.e8)) by (nonlinear_arith);
    assert(m.e8 * (m.e1 * m.e3) == m.e1 * (m.e3 * m.e8)) by (nonlinear_arith);
    assert(m.e2 * (m.e3 * m.e7 - m.e4 * m.e6) + m.e5 * (m.e1 * m.e6 - m.e0 * m.e7) + m.e8 * (m.e0 * m.e4 - m.e1 * m.e3) == (m.e0 * (m.e4 * m.e8 - m.e5 * m.e7) - m.e1 * (m.e3 * m.e8 - m.e5 * m.e6) + m.e2 * (m.e3 * m.e7 - m.e4 * m.e6)));
    // ... while against the cofactors of another row or column the sum vanishes.
    assert(m.e0 * (m.e2 * m.e7 - m.e1 * m.e8) + m.e1 * (m.e0 * m.e8 - m.e2 * m.e6) + m.e2 * (m.e1 * m.e6 - m.e0 * m.e7) == 0) by (nonlinear_arith);
    assert(m.e0 * (m.e1 * m.e5 - m.e2 * m.e4) + m.e1 * (m.e2 * m.e3 - m.e0 * m.e5) + m.e2 * (m.e0 * m.e4 - m.e1 * m.e3) == 0) by (nonlinear_arith);
    assert(m.e3 * (m.e4 * m.e8 - m.e5 * m.e7) + m.e4 * (m.e5 * m.e6 - m.e3 * m.e8) + m.e5 * (m.e3 * m.e7 - m.e4 * m.e6) == 0) by (nonlinear_arith);
    assert(m.e3 * (m.e1 * m.e5 - m.e2 * m.e4) + m.e4 * (m.e2 * m.e3 - m.e0 * m.e5) + m.e5 * (m.e0 * m.e4 - m.e1 * m.e3) == 0) by (nonlinear_arith);
    assert(m.e6 * (m.e4 * m.e8 - m.e5 * m.e7) + m.e7 * (m.e5 * m.e6 - m.e3 * m.e8) + m.e8 * (m.e3 * m.e7 - m.e4 * m.e6) == 0) by (nonlinear_arith);
    assert(m.e6 * (m.e2 * m.e7 - m.e1 * m.e8) + m.e7 * (m.e0 * m.e8 - m.e2 * m.e6) + m.e8 * (m.e1 * m.e6 - m.e0 * m.e7) == 0) by (nonlinear_arith);
    assert(m.e1 * (m.e4 * m.e8 - m.e5 * m.e7) + m.e4 * (m.e2 * m.e7 - m.e1 * m.e8) + m.e7 * (m.e1 * m.e5 - m.e2 * m.e4) == 0) by (nonlinear_arith);
    assert(m.e2 * (m.e4 * m.e8 - m.e5 * m.e7) + m.e5 * (m.e2 * m.e7 - m.e1 * m.e8) + m.e8 * (m.e1 * m.e5 - m.e2 * m.e4) == 0) by (nonlinear_arith);
    assert(m.e0 * (m.e5 * m.e6 - m.e3 * m.e8) + m.e3 * (m.e0 * m.e8 - m.e2 * m.e6) + m.e6 * (m.e2 * m.e3 - m.e0 * m.e5) == 0) by (nonlinear_arith);
    assert(m.e2 * (m.e5 * m.e6 - m.e3 * m.e8) + m.e5 * (m.e0 * m.e8 - m.e2 * m.e6) + m.e8 * (m.e2 * m.e3 - m.e0 * m.e5) == 0) by (nonlinear_arith);
    assert(m.e0 * (m.e3 * m.e7 - m.e4 * m.e6) + m.e3 * (m.e1 * m.e6 - m.e0 * m.e7) + m.e6 * (m.e0 * m.e4 - m.e1 * m.e3) == 0) by (nonlinear_arith);
    assert(m.e1 * (m.e3 * m.e7 - m.e4 * m.e6) + m.e4 * (m.e1 * m.e6 - m.e0 * m.e7) + m.e7 * (m.e0 * m.e4 - m.e1 * m.e3) == 0) by (nonlinear_arith);
    // Scale by the shared denominator, in both orders and signs.
    lemma_dot3_scaled(m.e0, m.e1, m.e2, (m.e4 * m.e8 - m.e5 * m.e7), (m.e5 * m.e6 - m.e3 * m.e8), (m.e3 * m.e7 - m.e4 * m.e6), m.d, det);
    lemma_dot3_scaled(m.e0, m.e1, m.e2, (m.e2 * m.e7 - m.e1 * m.e8), (m.e0 * m.e8 - m.e2 * m.e6), (m.e1 * m.e6 - m.e0 * m.e7), m.d, 0);
    lemma_dot3_scaled(m.e0, m.e1, m.e2, (m.e1 * m.e5 - m.e2 * m.e4), (m.e2 * m.e3 - m.e0 * m.e5), (m.e0 * m.e4 - m.e1 * m.e3), m.d, 0);
    lemma_dot3_scaled(m.e3, m.e4, m.e5, (m.e4 * m.e8 - m.e5 * m.e7), (m.e5 * m.e6 - m.e3 * m.e8), (m.e3 * m.e7 - m.e4 * m.e6), m.d, 0);
    lemma_dot3_scaled(m.e3, m.e4, m.e5, (m.e2 * m.e7 - m.e1 * m.e8), (m.e0 * m.e8 - m.e2 * m.e6), (m.e1 * m.e6 - m.e0 * m.e7), m.d, det);
    lemma_dot3_scaled(m.e3, m.e4, m.e5, (m.e1 * m.e5 - m.e2 * m.e4), (m.e2 * m.e3 - m.e0 * m.e5), (m.e0 * m.e4 - m.e1 * m.e3), m.d, 0);
    lemma_dot3_scaled(m.e6, m.e7, m.e8, (m.e4 * m.e8 - m.e5 * m.e7), (m.e5 * m.e6 - m.e3 * m.e8), (m.e3 * m.e7 - m.e4 * m.e6), m.d, 0);
    lemma_dot3_scaled(m.e6, m.e7, m.e8, (m.e2 * m.e7 - m.e1 * m.e8), (m.e0 * m.e8 - m.e2 * m.e6), (m.e1 * m.e6 - m.e0 * m.e7), m.d, 0);
    lemma_dot3_scaled(m.e6, m.e7, m.e8, (m.e1 * m.e5 - m.e2 * m.e4), (m.e2 * m.e3 - m.e0 * m.e5), (m.e0 * m.e4 - m.e1 * m.e3), m.d, det);
    lemma_dot3_scaled(m.e0, m.e3, m.e6, (m.e4 * m.e8 - m.e5 * m.e7), (m.e2 * m.e7 - m.e1 * m.e8), (m.e1 * m.e5 - m.e2 * m.e4), m.d, det);
    lemma_dot3_scaled(m.e1, m.e4, m.e7, (m.e4 * m.e8 - m.e5 * m.e7), (m.e2 * m.e7 - m.e1 * m.e8), (m.e1 * m.e5 - m.e2 * m.e4), m.d, 0);
    lemma_dot3_scaled(m.e2, m.e5, m.e8, (m.e4 * m.e8 - m.e5 * m.e7), (m.e2 * m.e7 - m.e1 * m.e8), (m.e1 * m.e5 - m.e2 * m.e4), m.d, 0);
    lemma_dot3_scaled(m.e0, m.e3, m.e6, (m.e5 * m.e6 - m.e3 * m.e8), (m.e0 * m.e8 - m.e2 * m.e6), (m.e2 * m.e3 - m.e0 * m.e5), m.d, 0);
    lemma_dot3_scaled(m.e1, m.e4, m.e7, (m.e5 * m.e6 - m.e3 * m.e8), (m.e0 * m.e8 - m.e2 * m.e6), (m.e2 * m.e3 - m.e0 * m.e5), m.d, det);
    lemma_dot3_scaled(m.e2, m.e5, m.e8, (m.e5 * m.e6 - m.e3 * m.e8), (m.e0 * m.e8 - m.e2 * m.e6), (m.e2 * m.e3 - m.e0 * m.e5), m.d, 0);
    lemma_dot3_scaled(m.e0, m.e3, m.e6, (m.e3 * m.e7 - m.e4 * m.e6), (m.e1 * m.e6 - m.e0 * m.e7), (m.e0 * m.e4 - m.e1 * m.e3), m.d, 0);
    lemma_dot3_scaled(m.e1, m.e4, m.e7, (m.e3 * m.e7 - m.e4 * m.e6), (m.e1 * m.e6 - m.e0 * m.e7), (m.e0 * m.e4 - m.e1 * m.e3), m.d, 0);
    lemma_dot3_scaled(m.e2, m.e5, m.e8, (m.e3 * m.e7 - m.e4 * m.e6), (m.e1 * m.e6 - m.e0 * m.e7), (m.e0 * m.e4 - m.e1 * m.e3), m.d, det);
}

/// Matrix from nine row-major integer entries over one positive denominator.
pub fn mat3(e: [i128; 9], d: i128) -> (r: Mat3)
    requires
        d >= 1,
    ensures
        r.wf(),

        r.m0 == e[0],
        r.m1 == e[1],
        r.m2 == e[2],
        r.m3 == e[3],
        r.m4 == e[4],
        r.m5 == e[5],
        r.m6 == e[6],
        r.m7 == e[7],
        r.m8 == e[8],
        r.d == d,
{
    Mat3 { m0: e[0], m1: e[1], m2: e[2], m3: e[3], m4: e[4], m5: e[5], m6: e[6], m7: e[7], m8: e[8], d }
}

/// The identity matrix.
pub fn mat3_identity() -> (r: Mat3)
    ensures
        r.wf(),
        r@ == m3_id(),
{
    Mat3 { m0: 1, m1: 0, m2: 0, m3: 0, m4: 1, m5: 0, m6: 0, m7: 0, m8: 1, d: 1 }
}

/// Exact matrix product `a * b`.
pub fn mat3_mul(a: &Mat3, b: &Mat3) -> (r: Mat3)
    requires
        a.wf(),
        b.wf(),
        mat3_in(*a, 0x1000_0000_0000_0000),
        mat3_in(*b, 0x1000_0000_0000_0000),
    ensures
        r.wf(),
        r@ == m3_mul(a@, b@),
{
    proof {
        lemma_mat3_entry_bounds(a@, b@);
    }
    Mat3 {

        m0: a.m0 * b.m0 + a.m1 * b.m3 + a.m2 * b.m6,
        m1: a.m0 * b.m1 + a.m1 * b.m4 + a.m2 * b.m7,
        m2: a.m0 * b.m2 + a.m1 * b.m5 + a.m2 * b.m8,
        m3: a.m3 * b.m0 + a.m4 * b.m3 + a.m5 * b.m6,
        m4: a.m3 * b.m1 + a.m4 * b.m4 + a.m5 * b.m7,
        m5: a.m3 * b.m2 + a.m4 * b.m5 + a.m5 * b.m8,
        m6: a.m6 * b.m0 + a.m7 * b.m3 + a.m8 * b.m6,
        m7: a.m6 * b.m1 + a.m7 * b.m4 + a.m8 * b.m7,
        m8: a.m6 * b.m2 + a.m7 * b.m5 + a.m8 * b.m8,
        d: a.d * b.d,
    }
}

/// Products and denominators of two bounded matrices stay within an `i128`.
proof fn lemma_mat3_entry_bounds(a: Mat3V, b: Mat3V)
    requires

        -0x1000_0000_0000_0000 <= a.e0 <= 0x1000_0000_0000_0000,
        -0x1000_0000_0000_0000 <= b.e0 <= 0x1000_0000_0000_0000,
        -0x1000_0000_0000_0000 <= a.e1 <= 0x1000_0000_0000_0000,
        -0x1000_0000_0000_0000 <= b.e1 <= 0x1000_0000_0000_0000,
        -0x1000_0000_0000_0000 <= a.e2 <= 0x1000_0000_0000_0000,
        -0x1000_0000_0000_0000 <= b.e2 <= 0x1000_0000_0000_0000,
        -0x1000_0000_0000_0000 <= a.e3 <= 0x1000_0000_0000_0000,
        -0x1000_0000_0000_0000 <= b.e3 <= 0x1000_0000_0000_0000,
        -0x1000_0000_0000_0000 <= a.e4 <= 0x1000_0000_0000_0000,
        -0x1000_0000_0000_0000 <= b.e4 <= 0x1000_0000_0000_0000,
        -0x1000_0000_0000_0000 <= a.e5 <= 0x1000_0000_0000_0000,
        -0x1000_0000_0000_0000 <= b.e5 <= 0x1000_0000_0000_0000,
        -0x1000_0000_0000_0000 <= a.e6 <= 0x1000_0000_0000_0000,
        -0x1000_0000_0000_0000 <= b.e6 <= 0x1000_0000_0000_0000,
        -0x1000_0000_0000_0000 <= a.e7 <= 0x1000_0000_0000_0000,
        -0x1000_0000_0000_0000 <= b.e7 <= 0x1000_0000_0000_0000,
        -0x1000_0000_0000_0000 <= a.e8 <= 0x1000_0000_0000_0000,
        -0x1000_0000_0000_0000 <= b.e8 <= 0x1000_0000_0000_0000,
        1 <= a.d <= 0x1000_0000_0000_0000,
        1 <= b.d <= 0x1000_0000_0000_0000,
    ensures
        -0x1000_0000_0000_0000_0000_0000_0000_0000 <= a.e0 * b.e0 <= 0x1000_0000_0000_0000_0000_0000_0000_0000,
        -0x1000_0000_0000_0000_0000_0000_0000_0000 <= a.e1 * b.e3 <= 0x1000_0000_0000_0000_0000_0000_0000_0000,
        -0x1000_0000_0000_0000_0000_0000_0000_0000 <= a.e2 * b.e6 <= 0x1000_0000_0000_0000_0000_0000_0000_0000,
        -0x3000_0000_0000_0000_0000_0000_0000_0000 <= a.e0 * b.e0 + a.e1 * b.e3 + a.e2 * b.e6 <= 0x3000_0000_0000_0000_0000_0000_0000_0000,
        -0x1000_0000_0000_0000_0000_0000_0000_0000 <= a.e0 * b.e1 <= 0x1000_0000_0000_0000_0000_0000_0000_0000,
        -0x1000_0000_0000_0000_0000_0000_0000_0000 <= a.e1 * b.e4 <= 0x1000_0000_0000_0000_0000_0000_0000_0000,
        -0x1000_0000_0000_0000_0000_0000_0000_0000 <= a.e2 * b.e7 <= 0x1000_0000_0000_0000_0000_0000_0000_0000,
        -0x3000_0000_0000_0000_0000_0000_0000_0000 <= a.e0 * b.e1 + a.e1 * b.e4 + a.e2 * b.e7 <= 0x3000_0000_0000_0000_0000_0000_0000_0000,
        -0x1000_0000_0000_0000_0000_0000_0000_0000 <= a.e0 * b.e2 <= 0x1000_0000_0000_0000_0000_0000_0000_0000,
        -0x1000_0000_0000_0000_0000_0000_0000_0000 <= a.e1 * b.e5 <= 0x1000_0000_0000_0000_0000_0000_0000_0000,
        -0x1000_0000_0000_0000_0000_0000_0000_0000 <= a.e2 * b.e8 <= 0x1000_0000_0000_0000_0000_0000_0000_0000,
        -0x3000_0000_0000_0000_0000_0000_0000_0000 <= a.e0 * b.e2 + a.e1 * b.e5 + a.e2 * b.e8 <= 0x3000_0000_0000_0000_0000_0000_0000_0000,
        -0x1000_0000_0000_0000_0000_0000_0000_0000 <= a.e3 * b.e0 <= 0x1000_0000_0000_0000_0000_0000_0000_0000,
        -0x1000_0000_0000_0000_0000_0000_0000_0000 <= a.e4 * b.e3 <= 0x1000_0000_0000_0000_0000_0000_0000_0000,
        -0x1000_0000_0000_0000_0000_0000_0000_0000 <= a.e5 * b.e6 <= 0x1000_0000_0000_0000_0000_0000_0000_0000,
        -0x3000_0000_0000_0000_0000_0000_0000_0000 <= a.e3 * b.e0 + a.e4 * b.e3 + a.e5 * b.e6 <= 0x3000_0000_0000_0000_0000_0000_0000_0000,
        -0x1000_0000_0000_0000_0000_0000_0000_0000 <= a.e3 * b.e1 <= 0x1000_0000_0000_0000_0000_0000_0000_0000,
        -0x1000_0000_0000_0000_0000_0000_0000_0000 <= a.e4 * b.e4 <= 0x1000_0000_0000_0000_0000_0000_0000_0000,
        -0x1000_0000_0000_0000_0000_0000_0000_0000 <= a.e5 * b.e7 <= 0x1000_0000_0000_0000_0000_0000_0000_0000,
        -0x3000_0000_0000_0000_0000_0000_0000_0000 <= a.e3 * b.e1 + a.e4 * b.e4 + a.e5 * b.e7 <= 0x3000_0000_0000_0000_0000_0000_0000_0000,
        -0x1000_0000_0000_0000_0000_0000_0000_0000 <= a.e3 * b.e2 <= 0x1000_0000_0000_0000_0000_0000_0000_0000,
        -0x1000_0000_0000_0000_0000_0000_0000_0000 <= a.e4 * b.e5 <= 0x1000_0000_0000_0000_0000_0000_0000_0000,
        -0x1000_0000_0000_0000_0000_0000_0000_0000 <= a.e5 * b.e8 <= 0x1000_0000_0000_0000_0000_0000_0000_0000,
        -0x3000_0000_0000_0000_0000_0000_0000_0000 <= a.e3 * b.e2 + a.e4 * b.e5 + a.e5 * b.e8 <= 0x3000_0000_0000_0000_0000_0000_0000_0000,
        -0x1000_0000_0000_0000_0000_0000_0000_0000 <= a.e6 * b.e0 <= 0x1000_0000_0000_0000_0000_0000_0000_0000,
        -0x1000_0000_0000_0000_0000_0000_0000_0000 <= a.e7 * b.e3 <= 0x1000_0000_0000_0000_0000_0000_0000_0000,
        -0x1000_0000_0000_0000_0000_0000_0000_0000 <= a.e8 * b.e6 <= 0x1000_0000_0000_0000_0000_0000_0000_0000,
        -0x3000_0000_0000_0000_0000_0000_0000_0000 <= a.e6 * b.e0 + a.e7 * b.e3 + a.e8 * b.e6 <= 0x3000_0000_0000_0000_0000_0000_0000_0000,
        -0x1000_0000_0000_0000_0000_0000_0000_0000 <= a.e6 * b.e1 <= 0x1000_0000_0000_0000_0000_0000_0000_0000,
        -0x1000_0000_0000_0000_0000_0000_0000_0000 <= a.e7 * b.e4 <= 0x1000_0000_0000_0000_0000_0000_0000_0000,
        -0x1000_0000_0000_0000_0000_0000_0000_0000 <= a.e8 * b.e7 <= 0x1000_0000_0000_0000_0000_0000_0000_0000,
        -0x3000_0000_0000_0000_0000_0000_0000_0000 <= a.e6 * b.e1 + a.e7 * b.e4 + a.e8 * b.e7 <= 0x3000_0000_0000_0000_0000_0000_0000_0000,
        -0x1000_0000_0000_0000_0000_0000_0000_0000 <= a.e6 * b.e2 <= 0x1000_0000_0000_0000_0000_0000_0000_0000,
        -0x1000_0000_0000_0000_0000_0000_0000_0000 <= a.e7 * b.e5 <= 0x1000_0000_0000_0000_0000_0000_0000_0000,
        -0x1000_0000_0000_0000_0000_0000_0000_0000 <= a.e8 * b.e8 <= 0x1000_0000_0000_0000_0000_0000_0000_0000,
        -0x3000_0000_0000_0000_0000_0000_0000_0000 <= a.e6 * b.e2 + a.e7 * b.e5 + a.e8 * b.e8 <= 0x3000_0000_0000_0000_0000_0000_0000_0000,
        1 <= a.d * b.d <= 0x1000_0000_0000_0000_0000_0000_0000_0000,
{
    lemma_mul_bound(a.e0, b.e0, 0x1000_0000_0000_0000, 0x1000_0000_0000_0000);
    lemma_mul_bound(a.e1, b.e3, 0x1000_0000_0000_0000, 0x1000_0000_0000_0000);
    lemma_mul_bound(a.e2, b.e6, 0x1000_0000_0000_0000, 0x1000_0000_0000_0000);
    lemma_mul_bound(a.e0, b.e1, 0x1000_0000_0000_0000, 0x1000_0000_0000_0000);
    lemma_mul_bound(a.e1, b.e4, 0x1000_0000_0000_0000, 0x1000_0000_0000_0000);
    lemma_mul_bound(a.e2, b.e7, 0x1000_0000_0000_0000, 0x1000_0000_0000_0000);
    lemma_mul_bound(a.e0, b.e2, 0x1000_0000_0000_0000, 0x1000_0000_0000_0000);
    lemma_mul_bound(a.e1, b.e5, 0x1000_0000_0000_0000, 0x1000_0000_0000_0000);
    lemma_mul_bound(a.e2, b.e8, 0x1000_0000_0000_0000, 0x1000_0000_0000_0000);
    lemma_mul_bound(a.e3, b.e0, 0x1000_0000_0000_0000, 0x1000_0000_0000_0000);
    lemma_mul_bound(a.e4, b.e3, 0x1000_0000_0000_0000, 0x1000_0000_0000_0000);
    lemma_mul_bound(a.e5, b.e6, 0x1000_0000_0000_0000, 0x1000_0000_0000_0000);
    lemma_mul_bound(a.e3, b.e1, 0x1000_0000_0000_0000, 0x1000_0000_0000_0000);
    lemma_mul_bound(a.e4, b.e4, 0x1000_0000_0000_0000, 0x1000_0000_0000_0000);
    lemma_mul_bound(a.e5, b.e7, 0x1000_0000_0000_0000, 0x1000_0000_0000_0000);
    lemma_mul_bound(a.e3, b.e2, 0x1000_0000_0000_0000, 0x1000_0000_0000_0000);
    lemma_mul_bound(a.e4, b.e5, 0x1000_0000_0000_0000, 0x1000_0000_0000_0000);
    lemma_mul_bound(a.e5, b.e8, 0x1000_0000_0000_0000, 0x1000_0000_0000_0000);
    lemma_mul_bound(a.e6, b.e0, 0x1000_0000_0000_0000, 0x1000_0000_0000_0000);
    lemma_mul_bound(a.e7, b.e3, 0x1000_0000_0000_0000, 0x1000_0000_0000_0000);
    lemma_mul_bound(a.e8, b.e6, 0x1000_0000_0000_0000, 0x1000_0000_0000_0000);
    lemma_mul_bound(a.e6, b.e1, 0x1000_0000_0000_0000, 0x1000_0000_0000_0000);
    lemma_mul_bound(a.e7, b.e4, 0x1000_0000_0000_0000, 0x1000_0000_0000_0000);
    lemma_mul_bound(a.e8, b.e7, 0x1000_0000_0000_0000, 0x1000_0000_0000_0000);
    lemma_mul_bound(a.e6, b.e2, 0x1000_0000_0000_0000, 0x1000_0000_0000_0000);
    lemma_mul_bound(a.e7, b.e5, 0x1000_0000_0000_0000, 0x1000_0000_0000_0000);
    lemma_mul_bound(a.e8, b.e8, 0x1000_0000_0000_0000, 0x1000_0000_0000_0000);
    lemma_mul_bound(a.d, b.d, 0x1000_0000_0000_0000, 0x1000_0000_0000_0000);
    assert(1 <= a.d * b.d) by (nonlinear_arith)
        requires 1 <= a.d && 1 <= b.d;
}

/// All integers that the adjugate inversion of a matrix bounded by `2^30`
/// computes stay within an `i128`.
proof fn lemma_mat3_inv_bounds(m: Mat3V)
    requires

        -0x4000_0000 <= m.e0 <= 0x4000_0000,
        -0x4000_0000 <= m.e1 <= 0x4000_0000,
        -0x4000_0000 <= m.e2 <= 0x4000_0000,
        -0x4000_0000 <= m.e3 <= 0x4000_0000,
        -0x4000_0000 <= m.e4 <= 0x4000_0000,
        -0x4000_0000 <= m.e5 <= 0x4000_0000,
        -0x4000_0000 <= m.e6 <= 0x4000_0000,
        -0x4000_0000 <= m.e7 <= 0x4000_0000,
        -0x4000_0000 <= m.e8 <= 0x4000_0000,
        1 <= m.d <= 0x4000_0000,
    ensures
        -0x1000_0000_0000_0000 <= m.e4 * m.e8 <= 0x1000_0000_0000_0000,
        -0x2000_0000_0000_0000 <= (m.e4 * m.e8 - m.e5 * m.e7) <= 0x2000_0000_0000_0000,
        -0x1000_0000_0000_0000_0000_0000 <= (m.e4 * m.e8 - m.e5 * m.e7) * m.d <= 0x1000_0000_0000_0000_0000_0000,
        -0x1000_0000_0000_0000 <= m.e2 * m.e7 <= 0x1000_0000_0000_0000,
        -0x2000_0000_0000_0000 <= (m.e2 * m.e7 - m.e1 * m.e8) <= 0x2000_0000_0000_0000,
        -0x1000_0000_0000_0000_0000_0000 <= (m.e2 * m.e7 - m.e1 * m.e8) * m.d <= 0x1000_0000_0000_0000_0000_0000,
        -0x1000_0000_0000_0000 <= m.e1 * m.e5 <= 0x1000_0000_0000_0000,
        -0x2000_0000_0000_0000 <= (m.e1 * m.e5 - m.e2 * m.e4) <= 0x2000_0000_0000_0000,
        -0x1000_0000_0000_0000_0000_0000 <= (m.e1 * m.e5 - m.e2 * m.e4) * m.d <= 0x1000_0000_0000_0000_0000_0000,
        -0x1000_0000_0000_0000 <= m.e5 * m.e6 <= 0x1000_0000_0000_0000,
        -0x2000_0000_0000_0000 <= (m.e5 * m.e6 - m.e3 * m.e8) <= 0x2000_0000_0000_0000,
        -0x1000_0000_0000_0000_0000_0000 <= (m.e5 * m.e6 - m.e3 * m.e8) * m.d <= 0x1000_0000_0000_0000_0000_0000,
        -0x1000_0000_0000_0000 <= m.e0 * m.e8 <= 0x1000_0000_0000_0000,
        -0x2000_0000_0000_0000 <= (m.e0 * m.e8 - m.e2 * m.e6) <= 0x2000_0000_0000_0000,
        -0x1000_0000_0000_0000_0000_0000 <= (m.e0 * m.e8 - m.e2 * m.e6) * m.d <= 0x1000_0000_0000_0000_0000_0000,
        -0x1000_0000_0000_0000 <= m.e2 * m.e3 <= 0x1000_0000_0000_0000,
        -0x2000_0000_0000_0000 <= (m.e2 * m.e3 - m.e0 * m.e5) <= 0x2000_0000_0000_0000,
        -0x1000_0000_0000_0000_0000_0000 <= (m.e2 * m.e3 - m.e0 * m.e5) * m.d <= 0x1000_0000_0000_0000_0000_0000,
        -0x1000_0000_0000_0000 <= m.e3 * m.e7 <= 0x1000_0000_0000_0000,
        -0x2000_0000_0000_0000 <= (m.e3 * m.e7 - m.e4 * m.e6) <= 0x2000_0000_0000_0000,
        -0x1000_0000_0000_0000_0000_0000 <= (m.e3 * m.e7 - m.e4 * m.e6) * m.d <= 0x1000_0000_0000_0000_0000_0000,
        -0x1000_0000_0000_0000 <= m.e1 * m.e6 <= 0x1000_0000_0000_0000,
        -0x2000_0000_0000_0000 <= (m.e1 * m.e6 - m.e0 * m.e7) <= 0x2000_0000_0000_0000,
        -0x1000_0000_0000_0000_0000_0000 <= (m.e1 * m.e6 - m.e0 * m.e7) * m.d <= 0x1000_0000_0000_0000_0000_0000,
        -0x1000_0000_0000_0000 <= m.e0 * m.e4 <= 0x1000_0000_0000_0000,
        -0x2000_0000_0000_0000 <= (m.e0 * m.e4 - m.e1 * m.e3) <= 0x2000_0000_0000_0000,
        -0x1000_0000_0000_0000_0000_0000 <= (m.e0 * m.e4 - m.e1 * m.e3) * m.d <= 0x1000_0000_0000_0000_0000_0000,
        -0x1000_0000_0000_0000_0000_0000 <= m.e0 * (m.e4 * m.e8 - m.e5 * m.e7) <= 0x1000_0000_0000_0000_0000_0000,
        -0x1000_0000_0000_0000_0000_0000 <= m.e1 * (m.e5 * m.e6 - m.e3 * m.e8) <= 0x1000_0000_0000_0000_0000_0000,
        -0x1000_0000_0000_0000_0000_0000 <= m.e2 * (m.e3 * m.e7 - m.e4 * m.e6) <= 0x1000_0000_0000_0000_0000_0000,
        -0x4000_0000_0000_0000_0000_0000 <= m.e0 * (m.e4 * m.e8 - m.e5 * m.e7) - m.e1 * (m.e3 * m.e8 - m.e5 * m.e6) + m.e2 * (m.e3 * m.e7 - m.e4 * m.e6) <= 0x4000_0000_0000_0000_0000_0000,
        -0x2000_0000_0000_0000_0000_0000 <= m.e0 * (m.e4 * m.e8 - m.e5 * m.e7) - m.e1 * (m.e3 * m.e8 - m.e5 * m.e6) <= 0x2000_0000_0000_0000_0000_0000,
{
    lemma_mul_bound(m.e4, m.e8, 0x4000_0000, 0x4000_0000);
    lemma_mul_bound(m.e5, m.e7, 0x4000_0000, 0x4000_0000);
    lemma_mul_bound((m.e4 * m.e8 - m.e5 * m.e7), m.d, 0x2000_0000_0000_0000, 0x4000_0000);
    lemma_mul_bound(m.e2, m.e7, 0x4000_0000, 0x4000_0000);
    lemma_mul_bound(m.e1, m.e8, 0x4000_0000, 0x4000_0000);
    lemma_mul_bound((m.e2 * m.e7 - m.e1 * m.e8), m.d, 0x2000_0000_0000_0000, 0x4000_0000);
    lemma_mul_bound(m.e1, m.e5, 0x4000_0000, 0x4000_0000);
    lemma_mul_bound(m.e2, m.e4, 0x4000_0000, 0x4000_0000);
    lemma_mul_bound((m.e1 * m.e5 - m.e2 * m.e4), m.d, 0x2000_0000_0000_0000, 0x4000_0000);
    lemma_mul_bound(m.e5, m.e6, 0x4000_0000, 0x4000_0000);
    lemma_mul_bound(m.e3, m.e8, 0x4000_0000, 0x4000_0000);
    lemma_mul_bound((m.e5 * m.e6 - m.e3 * m.e8), m.d, 0x2000_0000_0000_0000, 0x4000_0000);
    lemma_mul_bound(m.e0, m.e8, 0x4000_0000, 0x4000_0000);
    lemma_mul_bound(m.e2, m.e6, 0x4000_0000, 0x4000_0000);
    lemma_mul_bound((m.e0 * m.e8 - m.e2 * m.e6), m.d, 0x2000_0000_0000_0000, 0x4000_0000);
    lemma_mul_bound(m.e2, m.e3, 0x4000_0000, 0x4000_0000);
    lemma_mul_bound(m.e0, m.e5, 0x4000_0000, 0x4000_0000);
    lemma_mul_bound((m.e2 * m.e3 - m.e0 * m.e5), m.d, 0x2000_0000_0000_0000, 0x4000_0000);
    lemma_mul_bound(m.e3, m.e7, 0x4000_0000, 0x4000_0000);
    lemma_mul_bound(m.e4, m.e6, 0x4000_0000, 0x4000_0000);
    lemma_mul_bound((m.e3 * m.e7 - m.e4 * m.e6), m.d, 0x2000_0000_0000_0000, 0x4000_0000);
    lemma_mul_bound(m.e1, m.e6, 0x4000_0000, 0x4000_0000);
    lemma_mul_bound(m.e0, m.e7, 0x4000_0000, 0x4000_0000);
    lemma_mul_bound((m.e1 * m.e6 - m.e0 * m.e7), m.d, 0x2000_0000_0000_0000, 0x4000_0000);
    lemma_mul_bound(m.e0, m.e4, 0x4000_0000, 0x4000_0000);
    lemma_mul_bound(m.e1, m.e3, 0x4000_0000, 0x4000_0000);
    lemma_mul_bound((m.e0 * m.e4 - m.e1 * m.e3), m.d, 0x2000_0000_0000_0000, 0x4000_0000);
    lemma_mul_bound(m.e0, (m.e4 * m.e8 - m.e5 * m.e7), 0x4000_0000, 0x2000_0000_0000_0000);
    lemma_mul_bound(m.e1, (m.e5 * m.e6 - m.e3 * m.e8), 0x4000_0000, 0x2000_0000_0000_0000);
    lemma_mul_bound(m.e1, m.e3 * m.e8 - m.e5 * m.e6, 0x4000_0000, 0x2000_0000_0000_0000);
    lemma_mul_bound(m.e2, (m.e3 * m.e7 - m.e4 * m.e6), 0x4000_0000, 0x2000_0000_0000_0000);
}

/// Adjugate inversion. A matrix whose determinant is exactly zero has no
/// inverse: the identity matrix is returned for it, by definition. For every
/// other matrix the result is the exact inverse, a two-sided one.
pub fn mat3_inv(m: &Mat3) -> (r: Mat3)
    requires
        m.wf(),
        mat3_in(*m, 0x4000_0000),
    ensures
        r.wf(),
        m3_det_n(m@) == 0 ==> r@ == m3_id(),
        m3_det_n(m@) != 0 ==> r@ == m3_inv_v(m@),
        m3_det_n(m@) != 0 ==> m3_equiv(m3_mul(m@, r@), m3_id()) && m3_equiv(
            m3_mul(r@, m@),
            m3_id(),
        ),
{
    proof {
        lemma_mat3_inv_bounds(m@);
    }
    let det = m.m0 * (m.m4 * m.m8 - m.m5 * m.m7) - m.m1 * (m.m3 * m.m8 - m.m5 * m.m6) + m.m2 * (
    m.m3 * m.m7 - m.m4 * m.m6);
    if det == 0 {
        mat3_identity()
    } else {
        proof {
            lemma_mat3_inverse(m@);
        }
        if det > 0 {
            Mat3 {

                m0: (m.m4 * m.m8 - m.m5 * m.m7) * m.d,
                m1: (m.m2 * m.m7 - m.m1 * m.m8) * m.d,
                m2: (m.m1 * m.m5 - m.m2 * m.m4) * m.d,
                m3: (m.m5 * m.m6 - m.m3 * m.m8) * m.d,
                m4: (m.m0 * m.m8 - m.m2 * m.m6) * m.d,
                m5: (m.m2 * m.m3 - m.m0 * m.m5) * m.d,
                m6: (m.m3 * m.m7 - m.m4 * m.m6) * m.d,
                m7: (m.m1 * m.m6 - m.m0 * m.m7) * m.d,
                m8: (m.m0 * m.m4 - m.m1 * m.m3) * m.d,
                d: det,
            }
        } else {
            Mat3 {

                m0: -((m.m4 * m.m8 - m.m5 * m.m7) * m.d),
                m1: -((m.m2 * m.m7 - m.m1 * m.m8) * m.d),
                m2: -((m.m1 * m.m5 - m.m2 * m.m4) * m.d),
                m3: -((m.m5 * m.m6 - m.m3 * m.m8) * m.d),
                m4: -((m.m0 * m.m8 - m.m2 * m.m6) * m.d),
                m5: -((m.m2 * m.m3 - m.m0 * m.m5) * m.d),
                m6: -((m.m3 * m.m7 - m.m4 * m.m6) * m.d),
                m7: -((m.m1 * m.m6 - m.m0 * m.m7) * m.d),
                m8: -((m.m0 * m.m4 - m.m1 * m.m3) * m.d),
                d: -det,
            }
        }
    }
}

/// Homogeneous transform of a 2D point: `p` is read as `(x, y, 1)` and only
/// the top two rows of the matrix act (an affine transform).
pub fn mat3_trans_homog(p: Vec2, m: &Mat3) -> (r: Vec2)
    requires
        vec2_wf(p),
        m.wf(),
        vec2_in(p, 0x100_0000),
        mat3_in(*m, 0x100_0000),
    ensures
        vec2_wf(r),
        r.x@ == rat_add(
            rat_add(
                rat_mul(p.x@, (Rat { n: m@.e0, d: m@.d })),
                rat_mul(p.y@, (Rat { n: m@.e1, d: m@.d })),
            ),
            (Rat { n: m@.e2, d: m@.d }),
        ),
        r.y@ == rat_add(
            rat_add(
                rat_mul(p.x@, (Rat { n: m@.e3, d: m@.d })),
                rat_mul(p.y@, (Rat { n: m@.e4, d: m@.d })),
            ),
            (Rat { n: m@.e5, d: m@.d }),
        ),
{
    let a0 = Scal { n: m.m0, d: m.d };
    let a1 = Scal { n: m.m1, d: m.d };
    let a2 = Scal { n: m.m2, d: m.d };
    let a3 = Scal { n: m.m3, d: m.d };
    let a4 = Scal { n: m.m4, d: m.d };
    let a5 = Scal { n: m.m5, d: m.d };
    proof {
        lemma_mul_in(p.x@, a0@, 0x100_0000, 0x100_0000);
        lemma_mul_in(p.y@, a1@, 0x100_0000, 0x100_0000);
        lemma_mul_in(p.x@, a3@, 0x100_0000, 0x100_0000);
        lemma_mul_in(p.y@, a4@, 0x100_0000, 0x100_0000);
        lemma_add_in(
            rat_mul(p.x@, a0@),
            rat_mul(p.y@, a1@),
            0x1_0000_0000_0000,
            0x1_0000_0000_0000,
        );
        lemma_add_in(
            rat_add(rat_mul(p.x@, a0@), rat_mul(p.y@, a1@)),
            a2@,
            0x2_0000_0000_0000_0000_0000_0000,
            0x100_0000,
        );
        lemma_add_in(
            rat_mul(p.x@, a3@),
            rat_mul(p.y@, a4@),
            0x1_0000_0000_0000,
            0x1_0000_0000_0000,
        );
        lemma_add_in(
            rat_add(rat_mul(p.x@, a3@), rat_mul(p.y@, a4@)),
            a5@,
            0x2_0000_0000_0000_0000_0000_0000,
            0x100_0000,
        );
    }
    Vec2 {
        x: p.x.mul(a0).add(p.y.mul(a1)).add(a2),
        y: p.x.mul(a3).add(p.y.mul(a4)).add(a5),
    }
}

impl Mat3 {
    /// Value equality: true iff the two matrices denote the same rational
    /// matrix.
    pub fn eq_val(&self, o: &Mat3) -> (r: bool)
        requires
            self.wf(),
            o.wf(),
            mat3_in(*self, 0x4000_0000_0000_0000),
            mat3_in(*o, 0x4000_0000_0000_0000),
        ensures
            r == m3_equiv(self@, o@),
    {
        proof {
            lemma_mat3_eq_bounds(self@, o@);
        }

        self.m0 * o.d == o.m0 * self.d && self.m1 * o.d == o.m1 * self.d && self.m2 * o.d == o.m2 * self.d && self.m3 * o.d == o.m3 * self.d && self.m4 * o.d == o.m4 * self.d && self.m5 * o.d == o.m5 * self.d && self.m6 * o.d == o.m6 * self.d && self.m7 * o.d == o.m7 * self.d && self.m8 * o.d == o.m8 * self.d
    }
}

/// The cross products compared by `eq_val` stay within an `i128`.
proof fn lemma_mat3_eq_bounds(a: Mat3V, b: Mat3V)
    requires

        -0x4000_0000_0000_0000 <= a.e0 <= 0x4000_0000_0000_0000,
        -0x4000_0000_0000_0000 <= b.e0 <= 0x4000_0000_0000_0000,
        -0x4000_0000_0000_0000 <= a.e1 <= 0x4000_0000_0000_0000,
        -0x4000_0000_0000_0000 <= b.e1 <= 0x4000_0000_0000_0000,
        -0x4000_0000_0000_0000 <= a.e2 <= 0x4000_0000_0000_0000,
        -0x4000_0000_0000_0000 <= b.e2 <= 0x4000_0000_0000_0000,
        -0x4000_0000_0000_0000 <= a.e3 <= 0x4000_0000_0000_0000,
        -0x4000_0000_0000_0000 <= b.e3 <= 0x4000_0000_0000_0000,
        -0x4000_0000_0000_0000 <= a.e4 <= 0x4000_0000_0000_0000,
        -0x4000_0000_0000_0000 <= b.e4 <= 0x4000_0000_0000_0000,
        -0x4000_0000_0000_0000 <= a.e5 <= 0x4000_0000_0000_0000,
        -0x4000_0000_0000_0000 <= b.e5 <= 0x4000_0000_0000_0000,
        -0x4000_0000_0000_0000 <= a.e6 <= 0x4000_0000_0000_0000,
        -0x4000_0000_0000_0000 <= b.e6 <= 0x4000_0000_0000_0000,
        -0x4000_0000_0000_0000 <= a.e7 <= 0x4000_0000_0000_0000,
        -0x4000_0000_0000_0000 <= b.e7 <= 0x4000_0000_0000_0000,
        -0x4000_0000_0000_0000 <= a.e8 <= 0x4000_0000_0000_0000,
        -0x4000_0000_0000_0000 <= b.e8 <= 0x4000_0000_0000_0000,
        1 <= a.d <= 0x4000_0000_0000_0000,
        1 <= b.d <= 0x4000_0000_0000_0000,
    ensures
        -0x1000_0000_0000_0000_0000_0000_0000_0000 <= a.e0 * b.d <= 0x1000_0000_0000_0000_0000_0000_0000_0000,
        -0x1000_0000_0000_0000_0000_0000_0000_0000 <= b.e0 * a.d <= 0x1000_0000_0000_0000_0000_0000_0000_0000,
        -0x1000_0000_0000_0000_0000_0000_0000_0000 <= a.e1 * b.d <= 0x1000_0000_0000_0000_0000_0000_0000_0000,
        -0x1000_0000_0000_0000_0000_0000_0000_0000 <= b.e1 * a.d <= 0x1000_0000_0000_0000_0000_0000_0000_0000,
        -0x1000_0000_0000_0000_0000_0000_0000_0000 <= a.e2 * b.d <= 0x1000_0000_0000_0000_0000_0000_0000_0000,
        -0x1000_0000_0000_0000_0000_0000_0000_0000 <= b.e2 * a.d <= 0x1000_0000_0000_0000_0000_0000_0000_0000,
        -0x1000_0000_0000_0000_0000_0000_0000_0000 <= a.e3 * b.d <= 0x1000_0000_0000_0000_0000_0000_0000_0000,
        -0x1000_0000_0000_0000_0000_0000_0000_0000 <= b.e3 * a.d <= 0x1000_0000_0000_0000_0000_0000_0000_0000,
        -0x1000_0000_0000_0000_0000_0000_0000_0000 <= a.e4 * b.d <= 0x1000_0000_0000_0000_0000_0000_0000_0000,
        -0x1000_0000_0000_0000_0000_0000_0000_0000 <= b.e4 * a.d <= 0x1000_0000_0000_0000_0000_0000_0000_0000,
        -0x1000_0000_0000_0000_0000_0000_0000_0000 <= a.e5 * b.d <= 0x1000_0000_0000_0000_0000_0000_0000_0000,
        -0x1000_0000_0000_0000_0000_0000_0000_0000 <= b.e5 * a.d <= 0x1000_0000_0000_0000_0000_0000_0000_0000,
        -0x1000_0000_0000_0000_0000_0000_0000_0000 <= a.e6 * b.d <= 0x1000_0000_0000_0000_0000_0000_0000_0000,
        -0x1000_0000_0000_0000_0000_0000_0000_0000 <= b.e6 * a.d <= 0x1000_0000_0000_0000_0000_0000_0000_0000,
        -0x1000_0000_0000_0000_0000_0000_0000_0000 <= a.e7 * b.d <= 0x1000_0000_0000_0000_0000_0000_0000_0000,
        -0x1000_0000_0000_0000_0000_0000_0000_0000 <= b.e7 * a.d <= 0x1000_0000_0000_0000_0000_0000_0000_0000,
        -0x1000_0000_0000_0000_0000_0000_0000_0000 <= a.e8 * b.d <= 0x1000_0000_0000_0000_0000_0000_0000_0000,
        -0x1000_0000_0000_0000_0000_0000_0000_0000 <= b.e8 * a.d <= 0x1000_0000_0000_0000_0000_0000_0000_0000,
{
    lemma_mul_bound(a.e0, b.d, 0x4000_0000_0000_0000, 0x4000_0000_0000_0000);
    lemma_mul_bound(b.e0, a.d, 0x4000_0000_0000_0000, 0x4000_0000_0000_0000);
    lemma_mul_bound(a.e1, b.d, 0x4000_0000_0000_0000, 0x4000_0000_0000_0000);
    lemma_mul_bound(b.e1, a.d, 0x4000_0000_0000_0000, 0x4000_0000_0000_0000);
    lemma_mul_bound(a.e2, b.d, 0x4000_0000_0000_0000, 0x4000_0000_0000_0000);
    lemma_mul_bound(b.e2, a.d, 0x4000_0000_0000_0000, 0x4000_0000_0000_0000);
    lemma_mul_bound(a.e3, b.d, 0x4000_0000_0000_0000, 0x4000_0000_0000_0000);
    lemma_mul_bound(b.e3, a.d, 0x4000_0000_0000_0000, 0x4000_0000_0000_0000);
    lemma_mul_bound(a.e4, b.d, 0x4000_0000_0000_0000, 0x4000_0000_0000_0000);
    lemma_mul_bound(b.e4, a.d, 0x4000_0000_0000_0000, 0x4000_0000_0000_0000);
    lemma_mul_bound(a.e5, b.d, 0x4000_0000_0000_0000, 0x4000_0000_0000_0000);
    lemma_mul_bound(b.e5, a.d, 0x4000_0000_0000_0000, 0x4000_0000_0000_0000);
    lemma_mul_bound(a.e6, b.d, 0x4000_0000_0000_0000, 0x4000_0000_0000_0000);
    lemma_mul_bound(b.e6, a.d, 0x4000_0000_0000_0000, 0x4000_0000_0000_0000);
    lemma_mul_bound(a.e7, b.d, 0x4000_0000_0000_0000, 0x4000_0000_0000_0000);
    lemma_mul_bound(b.e7, a.d, 0x4000_0000_0000_0000, 0x4000_0000_0000_0000);
    lemma_mul_bound(a.e8, b.d, 0x4000_0000_0000_0000, 0x4000_0000_0000_0000);
    lemma_mul_bound(b.e8, a.d, 0x4000_0000_0000_0000, 0x4000_0000_0000_0000);
}

} // verus!
