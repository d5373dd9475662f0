//! 4x4 matrices over exact rationals: multiplication, transposition and the
//! homogeneous 3D transform.
//!
//! A matrix is sixteen integer entries in row-major order over one shared
//! positive denominator, so the row-times-column product is pure integer
//! arithmetic and every contract is exact. Multiplication is proved
//! associative ([`lemma_mat4_mul_assoc`]) and transposition is proved an
//! involution ([`lemma_mat4_transpose_involution`]). The view and projection
//! matrix builders need unit vectors and tangents, which are irrational;
//! they belong to the float layer outside this crate.

use vstd::prelude::*;
use crate::rat::Rat;
use crate::rat::Scal;
use crate::rat::rat_add;
use crate::rat::rat_mul;
use crate::rat::lemma_add_in;
use crate::rat::lemma_mul_in;
use crate::rat::lemma_mul_bound;
use crate::vec3::Vec3;
use crate::vec3::vec3_wf;
use crate::vec3::vec3_in;

verus! {

/// Mathematical value of a 4x4 matrix: sixteen unbounded integer entries in
/// row-major order over one denominator.
pub ghost struct Mat4V {
    pub e0: int,
    pub e1: int,
    pub e2: int,
    pub e3: int,
    pub e4: int,
    pub e5: int,
    pub e6: int,
    pub e7: int,
    pub e8: int,
    pub e9: int,
    pub e10: int,
    pub e11: int,
    pub e12: int,
    pub e13: int,
    pub e14: int,
    pub e15: int,
    pub d: int,
}

/// An exact 4x4 matrix: entry `(r, c)` has the value `m(4*r+c) / d`.
#[derive(Clone, Copy, Debug, PartialEq, Eq, Structural)]
pub struct Mat4 {
    pub m0: i128,
    pub m1: i128,
    pub m2: i128,
    pub m3: i128,
    pub m4: i128,
    pub m5: i128,
    pub m6: i128,
    pub m7: i128,
    pub m8: i128,
    pub m9: i128,
    pub m10: i128,
    pub m11: i128,
    pub m12: i128,
    pub m13: i128,
    pub m14: i128,
    pub m15: i128,
    pub d: i128,
}

impl View for Mat4 {
    type V = Mat4V;

    open spec fn view(&self) -> Mat4V {
        Mat4V { e0: self.m0 as int, e1: self.m1 as int, e2: self.m2 as int, e3: self.m3 as int, e4: self.m4 as int, e5: self.m5 as int, e6: self.m6 as int, e7: self.m7 as int, e8: self.m8 as int, e9: self.m9 as int, e10: self.m10 as int, e11: self.m11 as int, e12: self.m12 as int, e13: self.m13 as int, e14: self.m14 as int, e15: self.m15 as int, d: self.d as int }
    }
}

impl Mat4 {
    /// Well-formed: positive denominator.
    pub open spec fn wf(self) -> bool {
        self.d >= 1
    }
}

/// All entries bounded by `b` in magnitude, the denominator in `[1, b]`.
pub open spec fn mat4_in(m: Mat4, b: int) -> bool {
    -b <= m.m0 <= b && -b <= m.m1 <= b && -b <= m.m2 <= b && -b <= m.m3 <= b && -b <= m.m4 <= b && -b <= m.m5 <= b && -b <= m.m6 <= b && -b <= m.m7 <= b && -b <= m.m8 <= b && -b <= m.m9 <= b && -b <= m.m10 <= b && -b <= m.m11 <= b && -b <= m.m12 <= b && -b <= m.m13 <= b && -b <= m.m14 <= b && -b <= m.m15 <= b
        && 1 <= m.d <= b
}

/// Product of two matrix values (row times column, denominators multiply).
pub open spec fn m4_mul(a: Mat4V, b: Mat4V) -> Mat4V {
    Mat4V {
        e0: a.e0 * b.e0 + a.e1 * b.e4 + a.e2 * b.e8 + a.e3 * b.e12,
        e1: a.e0 * b.e1 + a.e1 * b.e5 + a.e2 * b.e9 + a.e3 * b.e13,
        e2: a.e0 * b.e2 + a.e1 * b.e6 + a.e2 * b.e10 + a.e3 * b.e14,
        e3: a.e0 * b.e3 + a.e1 * b.e7 + a.e2 * b.e11 + a.e3 * b.e15,
        e4: a.e4 * b.e0 + a.e5 * b.e4 + a.e6 * b.e8 + a.e7 * b.e12,
        e5: a.e4 * b.e1 + a.e5 * b.e5 + a.e6 * b.e9 + a.e7 * b.e13,
        e6: a.e4 * b.e2 + a.e5 * b.e6 + a.e6 * b.e10 + a.e7 * b.e14,
        e7: a.e4 * b.e3 + a.e5 * b.e7 + a.e6 * b.e11 + a.e7 * b.e15,
        e8: a.e8 * b.e0 + a.e9 * b.e4 + a.e10 * b.e8 + a.e11 * b.e12,
        e9: a.e8 * b.e1 + a.e9 * b.e5 + a.e10 * b.e9 + a.e11 * b.e13,
        e10: a.e8 * b.e2 + a.e9 * b.e6 + a.e10 * b.e10 + a.e11 * b.e14,
        e11: a.e8 * b.e3 + a.e9 * b.e7 + a.e10 * b.e11 + a.e11 * b.e15,
        e12: a.e12 * b.e0 + a.e13 * b.e4 + a.e14 * b.e8 + a.e15 * b.e12,
        e13: a.e12 * b.e1 + a.e13 * b.e5 + a.e14 * b.e9 + a.e15 * b.e13,
        e14: a.e12 * b.e2 + a.e13 * b.e6 + a.e14 * b.e10 + a.e15 * b.e14,
        e15: a.e12 * b.e3 + a.e13 * b.e7 + a.e14 * b.e11 + a.e15 * b.e15,
        d: a.d * b.d,
    }
}

/// The transposed matrix value: entry `(r, c)` becomes entry `(c, r)`, the
/// denominator is kept.
pub open spec fn m4_transpose_v(a: Mat4V) -> Mat4V {
    Mat4V {
        e0: a.e0,
        e1: a.e4,
        e2: a.e8,
        e3: a.e12,
        e4: a.e1,
        e5: a.e5,
        e6: a.e9,
        e7: a.e13,
        e8: a.e2,
        e9: a.e6,
        e10: a.e10,
        e11: a.e14,
        e12: a.e3,
        e13: a.e7,
        e14: a.e11,
        e15: a.e15,
        d: a.d,
    }
}

/// Equality of the rational values of two matrices: entrywise cross products.
pub open spec fn m4_equiv(a: Mat4V, b: Mat4V) -> bool {
    a.e0 * b.d == b.e0 * a.d && a.e1 * b.d == b.e1 * a.d && a.e2 * b.d == b.e2 * a.d && a.e3 * b.d == b.e3 * a.d && a.e4 * b.d == b.e4 * a.d && a.e5 * b.d == b.e5 * a.d && a.e6 * b.d == b.e6 * a.d && a.e7 * b.d == b.e7 * a.d && a.e8 * b.d == b.e8 * a.d && a.e9 * b.d == b.e9 * a.d && a.e10 * b.d == b.e10 * a.d && a.e11 * b.d == b.e11 * a.d && a.e12 * b.d == b.e12 * a.d && a.e13 * b.d == b.e13 * a.d && a.e14 * b.d == b.e14 * a.d && a.e15 * b.d == b.e15 * a.d
}

/// A four-term dot product of a row of `a * b` with a column of `c` equals
/// the matching dot product of a row of `a` with a column of `b * c`: both
/// expand to the same sixteen triple products.
proof fn lemma_dot4_assoc(
    a0: int, a1: int, a2: int, a3: int,
    b0: int, b1: int, b2: int, b3: int, b4: int, b5: int, b6: int, b7: int, b8: int, b9: int, b10: int, b11: int, b12: int, b13: int, b14: int, b15: int,
    c0: int, c1: int, c2: int, c3: int,
)
    ensures
        (a0 * b0 + a1 * b4 + a2 * b8 + a3 * b12) * c0 + (a0 * b1 + a1 * b5 + a2 * b9 + a3 * b13) * c1 + (a0 * b2 + a1 * b6 + a2 * b10 + a3 * b14) * c2 + (a0 * b3 + a1 * b7 + a2 * b11 + a3 * b15) * c3 == a0 * (b0 * c0 + b1 * c1 + b2 * c2 + b3 * c3) + a1 * (b4 * c0 + b5 * c1 + b6 * c2 + b7 * c3) + a2 * (b8 * c0 + b9 * c1 + b10 * c2 + b11 * c3) + a3 * (b12 * c0 + b13 * c1 + b14 * c2 + b15 * c3),
{
    assert((a0 * b0 + a1 * b4 + a2 * b8 + a3 * b12) * c0 == (a0 * b0) * c0 + (a1 * b4) * c0 + (a2 * b8) * c0 + (a3 * b12) * c0) by (nonlinear_arith);
    assert((a0 * b1 + a1 * b5 + a2 * b9 + a3 * b13) * c1 == (a0 * b1) * c1 + (a1 * b5) * c1 + (a2 * b9) * c1 + (a3 * b13) * c1) by (nonlinear_arith);
    assert((a0 * b2 + a1 * b6 + a2 * b10 + a3 * b14) * c2 == (a0 * b2) * c2 + (a1 * b6) * c2 + (a2 * b10) * c2 + (a3 * b14) * c2) by (nonlinear_arith);
    assert((a0 * b3 + a1 * b7 + a2 * b11 + a3 * b15) * c3 == (a0 * b3) * c3 + (a1 * b7) * c3 + (a2 * b11) * c3 + (a3 * b15) * c3) by (nonlinear_arith);
    assert(a0 * (b0 * c0 + b1 * c1 + b2 * c2 + b3 * c3) == a0 * (b0 * c0) + a0 * (b1 * c1) + a0 * (b2 * c2) + a0 * (b3 * c3)) by (nonlinear_arith);
    assert(a1 * (b4 * c0 + b5 * c1 + b6 * c2 + b7 * c3) == a1 * (b4 * c0) + a1 * (b5 * c1) + a1 * (b6 * c2) + a1 * (b7 * c3)) by (nonlinear_arith);
    assert(a2 * (b8 * c0 + b9 * c1 + b10 * c2 + b11 * c3) == a2 * (b8 * c0) + a2 * (b9 * c1) + a2 * (b10 * c2) + a2 * (b11 * c3)) by (nonlinear_arith);
    assert(a3 * (b12 * c0 + b13 * c1 + b14 * c2 + b15 * c3) == a3 * (b12 * c0) + a3 * (b13 * c1) + a3 * (b14 * c2) + a3 * (b15 * c3)) by (nonlinear_arith);
    assert((a0 * b0) * c0 == a0 * (b0 * c0)) by (nonlinear_arith);
    assert((a0 * b1) * c1 == a0 * (b1 * c1)) by (nonlinear_arith);
    assert((a0 * b2) * c2 == a0 * (b2 * c2)) by (nonlinear_arith);
    assert((a0 * b3) * c3 == a0 * (b3 * c3)) by (nonlinear_arith);
    assert((a1 * b4) * c0 == a1 * (b4 * c0)) by (nonlinear_arith);
    assert((a1 * b5) * c1 == a1 * (b5 * c1)) by (nonlinear_arith);
    assert((a1 * b6) * c2 == a1 * (b6 * c2)) by (nonlinear_arith);
    assert((a1 * b7) * c3 == a1 * (b7 * c3)) by (nonlinear_arith);
    assert((a2 * b8) * c0 == a2 * (b8 * c0)) by (nonlinear_arith);
    assert((a2 * b9) * c1 == a2 * (b9 * c1)) by (nonlinear_arith);
    assert((a2 * b10) * c2 == a2 * (b10 * c2)) by (nonlinear_arith);
    assert((a2 * b11) * c3 == a2 * (b11 * c3)) by (nonlinear_arith);
    assert((a3 * b12) * c0 == a3 * (b12 * c0)) by (nonlinear_arith);
    assert((a3 * b13) * c1 == a3 * (b13 * c1)) by (nonlinear_arith);
    assert((a3 * b14) * c2 == a3 * (b14 * c2)) by (nonlinear_arith);
    assert((a3 * b15) * c3 == a3 * (b15 * c3)) by (nonlinear_arith);
}

/// Matrix multiplication is associative: `(a * b) * c == a * (b * c)`, an
/// equality of representations, entries and denominator alike.
pub proof fn lemma_mat4_mul_assoc(a: Mat4V, b: Mat4V, c: Mat4V)
    ensures
        m4_mul(m4_mul(a, b), c) == m4_mul(a, m4_mul(b, c)),
{
    lemma_dot4_assoc(
        a.e0, a.e1, a.e2, a.e3,
        b.e0, b.e1, b.e2, b.e3, b.e4, b.e5, b.e6, b.e7, b.e8, b.e9, b.e10, b.e11, b.e12, b.e13, b.e14, b.e15,
        c.e0, c.e4, c.e8, c.e12,
    );
    lemma_dot4_assoc(
        a.e0, a.e1, a.e2, a.e3,
        b.e0, b.e1, b.e2, b.e3, b.e4, b.e5, b.e6, b.e7, b.e8, b.e9, b.e10, b.e11, b.e12, b.e13, b.e14, b.e15,
        c.e1, c.e5, c.e9, c.e13,
    );
    lemma_dot4_assoc(
        a.e0, a.e1, a.e2, a.e3,
        b.e0, b.e1, b.e2, b.e3, b.e4, b.e5, b.e6, b.e7, b.e8, b.e9, b.e10, b.e11, b.e12, b.e13, b.e14, b.e15,
        c.e2, c.e6, c.e10, c.e14,
    );
    lemma_dot4_assoc(
        a.e0, a.e1, a.e2, a.e3,
        b.e0, b.e1, b.e2, b.e3, b.e4, b.e5, b.e6, b.e7, b.e8, b.e9, b.e10, b.e11, b.e12, b.e13, b.e14, b.e15,
        c.e3, c.e7, c.e11, c.e15,
    );
    lemma_dot4_assoc(
        a.e4, a.e5, a.e6, a.e7,
        b.e0, b.e1, b.e2, b.e3, b.e4, b.e5, b.e6, b.e7, b.e8, b.e9, b.e10, b.e11, b.e12, b.e13, b.e14, b.e15,
        c.e0, c.e4, c.e8, c.e12,
    );
    lemma_dot4_assoc(
        a.e4, a.e5, a.e6, a.e7,
        b.e0, b.e1, b.e2, b.e3, b.e4, b.e5, b.e6, b.e7, b.e8, b.e9, b.e10, b.e11, b.e12, b.e13, b.e14, b.e15,
        c.e1, c.e5, c.e9, c.e13,
    );
    lemma_dot4_assoc(
        a.e4, a.e5, a.e6, a.e7,
        b.e0, b.e1, b.e2, b.e3, b.e4, b.e5, b.e6, b.e7, b.e8, b.e9, b.e10, b.e11, b.e12, b.e13, b.e14, b.e15,
        c.e2, c.e6, c.e10, c.e14,
    );
    lemma_dot4_assoc(
        a.e4, a.e5, a.e6, a.e7,
        b.e0, b.e1, b.e2, b.e3, b.e4, b.e5, b.e6, b.e7, b.e8, b.e9, b.e10, b.e11, b.e12, b.e13, b.e14, b.e15,
        c.e3, c.e7, c.e11, c.e15,
    );
    lemma_dot4_assoc(
        a.e8, a.e9, a.e10, a.e11,
        b.e0, b.e1, b.e2, b.e3, b.e4, b.e5, b.e6, b.e7, b.e8, b.e9, b.e10, b.e11, b.e12, b.e13, b.e14, b.e15,
        c.e0, c.e4, c.e8, c.e12,
    );
    lemma_dot4_assoc(
        a.e8, a.e9, a.e10, a.e11,
        b.e0, b.e1, b.e2, b.e3, b.e4, b.e5, b.e6, b.e7, b.e8, b.e9, b.e10, b.e11, b.e12, b.e13, b.e14, b.e15,
        c.e1, c.e5, c.e9, c.e13,
    );
    lemma_dot4_assoc(
        a.e8, a.e9, a.e10, a.e11,
        b.e0, b.e1, b.e2, b.e3, b.e4, b.e5, b.e6, b.e7, b.e8, b.e9, b.e10, b.e11, b.e12, b.e13, b.e14, b.e15,
        c.e2, c.e6, c.e10, c.e14,
    );
    lemma_dot4_assoc(
        a.e8, a.e9, a.e10, a.e11,
        b.e0, b.e1, b.e2, b.e3, b.e4, b.e5, b.e6, b.e7, b.e8, b.e9, b.e10, b.e11, b.e12, b.e13, b.e14, b.e15,
        c.e3, c.e7, c.e11, c.e15,
    );
    lemma_dot4_assoc(
        a.e12, a.e13, a.e14, a.e15,
        b.e0, b.e1, b.e2, b.e3, b.e4, b.e5, b.e6, b.e7, b.e8, b.e9, b.e10, b.e11, b.e12, b.e13, b.e14, b.e15,
        c.e0, c.e4, c.e8, c.e12,
    );
    lemma_dot4_assoc(
        a.e12, a.e13, a.e14, a.e15,
        b.e0, b.e1, b.e2, b.e3, b.e4, b.e5, b.e6, b.e7, b.e8, b.e9, b.e10, b.e11, b.e12, b.e13, b.e14, b.e15,
        c.e1, c.e5, c.e9, c.e13,
    );
    lemma_dot4_assoc(
        a.e12, a.e13, a.e14, a.e15,
        b.e0, b.e1, b.e2, b.e3, b.e4, b.e5, b.e6, b.e7, b.e8, b.e9, b.e10, b.e11, b.e12, b.e13, b.e14, b.e15,
        c.e2, c.e6, c.e10, c.e14,
    );
    lemma_dot4_assoc(
        a.e12, a.e13, a.e14, a.e15,
        b.e0, b.e1, b.e2, b.e3, b.e4, b.e5, b.e6, b.e7, b.e8, b.e9, b.e10, b.e11, b.e12, b.e13, b.e14, b.e15,
        c.e3, c.e7, c.e11, c.e15,
    );
    assert((a.d * b.d) * c.d == a.d * (b.d * c.d)) by (nonlinear_arith);
}

/// Transposition is an involution: transposing twice returns the very same
/// matrix value.
pub proof fn lemma_mat4_transpose_involution(a: Mat4V)
    ensures
        m4_transpose_v(m4_transpose_v(a)) == a,
{
}

/// A dot product of four `2^61`-bounded factors stays within an `i128`.
fn dot4(x0: i128, x1: i128, x2: i128, x3: i128, y0: i128, y1: i128, y2: i128, y3: i128) -> (r:
    i128)
    requires
        -0x2000_0000_0000_0000 <= x0 <= 0x2000_0000_0000_0000,
        -0x2000_0000_0000_0000 <= y0 <= 0x2000_0000_0000_0000,
        -0x2000_0000_0000_0000 <= x1 <= 0x2000_0000_0000_0000,
        -0x2000_0000_0000_0000 <= y1 <= 0x2000_0000_0000_0000,
        -0x2000_0000_0000_0000 <= x2 <= 0x2000_0000_0000_0000,
        -0x2000_0000_0000_0000 <= y2 <= 0x2000_0000_0000_0000,
        -0x2000_0000_0000_0000 <= x3 <= 0x2000_0000_0000_0000,
        -0x2000_0000_0000_0000 <= y3 <= 0x2000_0000_0000_0000,
    ensures
        r == x0 * y0 + x1 * y1 + x2 * y2 + x3 * y3,
{
    proof {
        lemma_mul_bound(x0 as int, y0 as int, 0x2000_0000_0000_0000, 0x2000_0000_0000_0000);
        lemma_mul_bound(x1 as int, y1 as int, 0x2000_0000_0000_0000, 0x2000_0000_0000_0000);
        lemma_mul_bound(x2 as int, y2 as int, 0x2000_0000_0000_0000, 0x2000_0000_0000_0000);
        lemma_mul_bound(x3 as int, y3 as int, 0x2000_0000_0000_0000, 0x2000_0000_0000_0000);
    }
    x0 * y0 + x1 * y1 + x2 * y2 + x3 * y3
}

/// Exact matrix product `a * b`, row-major rows of `a` against columns of
/// `b`; the denominators multiply.
pub fn mat4_mul(a: &Mat4, b: &Mat4) -> (r: Mat4)
    requires
        a.wf(),
        b.wf(),
        mat4_in(*a, 0x2000_0000_0000_0000),
        mat4_in(*b, 0x2000_0000_0000_0000),
    ensures
        r.wf(),
        r@ == m4_mul(a@, b@),
{
    proof {
        lemma_mul_bound(a.d as int, b.d as int, 0x2000_0000_0000_0000, 0x2000_0000_0000_0000);
        assert(a@.d * b@.d >= 1) by (nonlinear_arith)
            requires
                a@.d >= 1,
                b@.d >= 1,
        ;
    }
    Mat4 {
        m0: dot4(a.m0, a.m1, a.m2, a.m3, b.m0, b.m4, b.m8, b.m12),
        m1: dot4(a.m0, a.m1, a.m2, a.m3, b.m1, b.m5, b.m9, b.m13),
        m2: dot4(a.m0, a.m1, a.m2, a.m3, b.m2, b.m6, b.m10, b.m14),
        m3: dot4(a.m0, a.m1, a.m2, a.m3, b.m3, b.m7, b.m11, b.m15),
        m4: dot4(a.m4, a.m5, a.m6, a.m7, b.m0, b.m4, b.m8, b.m12),
        m5: dot4(a.m4, a.m5, a.m6, a.m7, b.m1, b.m5, b.m9, b.m13),
        m6: dot4(a.m4, a.m5, a.m6, a.m7, b.m2, b.m6, b.m10, b.m14),
        m7: dot4(a.m4, a.m5, a.m6, a.m7, b.m3, b.m7, b.m11, b.m15),
        m8: dot4(a.m8, a.m9, a.m10, a.m11, b.m0, b.m4, b.m8, b.m12),
        m9: dot4(a.m8, a.m9, a.m10, a.m11, b.m1, b.m5, b.m9, b.m13),
        m10: dot4(a.m8, a.m9, a.m10, a.m11, b.m2, b.m6, b.m10, b.m14),
        m11: dot4(a.m8, a.m9, a.m10, a.m11, b.m3, b.m7, b.m11, b.m15),
        m12: dot4(a.m12, a.m13, a.m14, a.m15, b.m0, b.m4, b.m8, b.m12),
        m13: dot4(a.m12, a.m13, a.m14, a.m15, b.m1, b.m5, b.m9, b.m13),
        m14: dot4(a.m12, a.m13, a.m14, a.m15, b.m2, b.m6, b.m10, b.m14),
        m15: dot4(a.m12, a.m13, a.m14, a.m15, b.m3, b.m7, b.m11, b.m15),
        d: a.d * b.d,
    }
}

/// The transpose: rows and columns swapped, the denominator kept.
pub fn mat4_transpose(a: &Mat4) -> (r: Mat4)
    ensures
        r@ == m4_transpose_v(a@),
        a.wf() ==> r.wf(),
{
    Mat4 {
        m0: a.m0,
        m1: a.m4,
        m2: a.m8,
        m3: a.m12,
        m4: a.m1,
        m5: a.m5,
        m6: a.m9,
        m7: a.m13,
        m8: a.m2,
        m9: a.m6,
        m10: a.m10,
        m11: a.m14,
        m12: a.m3,
        m13: a.m7,
        m14: a.m11,
        m15: a.m15,
        d: a.d,
    }
}

/// Homogeneous transform of a 3D point: `v` is read as `(x, y, z, 1)`, the
/// matrix is applied column-wise as `x' = x*m0 + y*m4 + z*m8 + m12` (and
/// likewise for y and z over the shared denominator), and the implicit
/// fourth output coordinate is dropped: no perspective divide is performed.
pub fn mat4_trans_homog(v: Vec3, m: &Mat4) -> (r: Vec3)
    requires
        vec3_wf(v),
        m.wf(),
        vec3_in(v, 0x2_0000),
        mat4_in(*m, 0x2_0000),
    ensures
        vec3_wf(r),

        r.x@ == rat_add(
            rat_add(
                rat_add(
                    rat_mul(v.x@, (Rat { n: m@.e0, d: m@.d })),
                    rat_mul(v.y@, (Rat { n: m@.e4, d: m@.d })),
                ),
                rat_mul(v.z@, (Rat { n: m@.e8, d: m@.d })),
            ),
            (Rat { n: m@.e12, d: m@.d }),
        ),
        r.y@ == rat_add(
            rat_add(
                rat_add(
                    rat_mul(v.x@, (Rat { n: m@.e1, d: m@.d })),
                    rat_mul(v.y@, (Rat { n: m@.e5, d: m@.d })),
                ),
                rat_mul(v.z@, (Rat { n: m@.e9, d: m@.d })),
            ),
            (Rat { n: m@.e13, d: m@.d }),
        ),
        r.z@ == rat_add(
            rat_add(
                rat_add(
                    rat_mul(v.x@, (Rat { n: m@.e2, d: m@.d })),
                    rat_mul(v.y@, (Rat { n: m@.e6, d: m@.d })),
                ),
                rat_mul(v.z@, (Rat { n: m@.e10, d: m@.d })),
            ),
            (Rat { n: m@.e14, d: m@.d }),
        ),
{
    let x0 = Scal { n: m.m0, d: m.d };
    let x1 = Scal { n: m.m4, d: m.d };
    let x2 = Scal { n: m.m8, d: m.d };
    let x3 = Scal { n: m.m12, d: m.d };
    let y0 = Scal { n: m.m1, d: m.d };
    let y1 = Scal { n: m.m5, d: m.d };
    let y2 = Scal { n: m.m9, d: m.d };
    let y3 = Scal { n: m.m13, d: m.d };
    let z0 = Scal { n: m.m2, d: m.d };
    let z1 = Scal { n: m.m6, d: m.d };
    let z2 = Scal { n: m.m10, d: m.d };
    let z3 = Scal { n: m.m14, d: m.d };
    proof {
        lemma_mul_in(v.x@, x0@, 0x2_0000, 0x2_0000);
        lemma_mul_in(v.y@, x1@, 0x2_0000, 0x2_0000);
        lemma_mul_in(v.z@, x2@, 0x2_0000, 0x2_0000);
        lemma_add_in(
            rat_mul(v.x@, x0@),
            rat_mul(v.y@, x1@),
            0x4_0000_0000,
            0x4_0000_0000,
        );
        lemma_add_in(
            rat_add(rat_mul(v.x@, x0@), rat_mul(v.y@, x1@)),
            rat_mul(v.z@, x2@),
            0x20_0000_0000_0000_0000,
            0x4_0000_0000,
        );
        lemma_add_in(
            rat_add(
                rat_add(rat_mul(v.x@, x0@), rat_mul(v.y@, x1@)),
                rat_mul(v.z@, x2@),
            ),
            x3@,
            0x100_0000_0000_0000_0000_0000_0000,
            0x2_0000,
        );
        lemma_mul_in(v.x@, y0@, 0x2_0000, 0x2_0000);
        lemma_mul_in(v.y@, y1@, 0x2_0000, 0x2_0000);
        lemma_mul_in(v.z@, y2@, 0x2_0000, 0x2_0000);
        lemma_add_in(
            rat_mul(v.x@, y0@),
            rat_mul(v.y@, y1@),
            0x4_0000_0000,
            0x4_0000_0000,
        );
        lemma_add_in(
            rat_add(rat_mul(v.x@, y0@), rat_mul(v.y@, y1@)),
            rat_mul(v.z@, y2@),
            0x20_0000_0000_0000_0000,
            0x4_0000_0000,
        );
        lemma_add_in(
            rat_add(
                rat_add(rat_mul(v.x@, y0@), rat_mul(v.y@, y1@)),
                rat_mul(v.z@, y2@),
            ),
            y3@,
            0x100_0000_0000_0000_0000_0000_0000,
            0x2_0000,
        );
        lemma_mul_in(v.x@, z0@, 0x2_0000, 0x2_0000);
        lemma_mul_in(v.y@, z1@, 0x2_0000, 0x2_0000);
        lemma_mul_in(v.z@, z2@, 0x2_0000, 0x2_0000);
        lemma_add_in(
            rat_mul(v.x@, z0@),
            rat_mul(v.y@, z1@),
            0x4_0000_0000,
            0x4_0000_0000,
        );
        lemma_add_in(
            rat_add(rat_mul(v.x@, z0@), rat_mul(v.y@, z1@)),
            rat_mul(v.z@, z2@),
            0x20_0000_0000_0000_0000,
            0x4_0000_0000,
        );
        lemma_add_in(
            rat_add(
                rat_add(rat_mul(v.x@, z0@), rat_mul(v.y@, z1@)),
                rat_mul(v.z@, z2@),
            ),
            z3@,
            0x100_0000_0000_0000_0000_0000_0000,
            0x2_0000,
        );
    }
    Vec3 {
        x: v.x.mul(x0).add(v.y.mul(x1)).add(v.z.mul(x2)).add(x3),
        y: v.x.mul(y0).add(v.y.mul(y1)).add(v.z.mul(y2)).add(y3),
        z: v.x.mul(z0).add(v.y.mul(z1)).add(v.z.mul(z2)).add(z3),
    }
}

impl Mat4 {
    /// Value equality: true iff the two matrices denote the same rational
    /// matrix.
    pub fn eq_val(&self, o: &Mat4) -> (r: bool)
        requires
            self.wf(),
            o.wf(),
            mat4_in(*self, 0x4000_0000_0000_0000),
            mat4_in(*o, 0x4000_0000_0000_0000),
        ensures
            r == m4_equiv(self@, o@),
    {
        proof {
            lemma_mul_bound(self@.e0, o@.d, 0x4000_0000_0000_0000, 0x4000_0000_0000_0000);
            lemma_mul_bound(o@.e0, self@.d, 0x4000_0000_0000_0000, 0x4000_0000_0000_0000);
            lemma_mul_bound(self@.e1, o@.d, 0x4000_0000_0000_0000, 0x4000_0000_0000_0000);
            lemma_mul_bound(o@.e1, self@.d, 0x4000_0000_0000_0000, 0x4000_0000_0000_0000);
            lemma_mul_bound(self@.e2, o@.d, 0x4000_0000_0000_0000, 0x4000_0000_0000_0000);
            lemma_mul_bound(o@.e2, self@.d, 0x4000_0000_0000_0000, 0x4000_0000_0000_0000);
            lemma_mul_bound(self@.e3, o@.d, 0x4000_0000_0000_0000, 0x4000_0000_0000_0000);
            lemma_mul_bound(o@.e3, self@.d, 0x4000_0000_0000_0000, 0x4000_0000_0000_0000);
            lemma_mul_bound(self@.e4, o@.d, 0x4000_0000_0000_0000, 0x4000_0000_0000_0000);
            lemma_mul_bound(o@.e4, self@.d, 0x4000_0000_0000_0000, 0x4000_0000_0000_0000);
            lemma_mul_bound(self@.e5, o@.d, 0x4000_0000_0000_0000, 0x4000_0000_0000_0000);
            lemma_mul_bound(o@.e5, self@.d, 0x4000_0000_0000_0000, 0x4000_0000_0000_0000);
            lemma_mul_bound(self@.e6, o@.d, 0x4000_0000_0000_0000, 0x4000_0000_0000_0000);
            lemma_mul_bound(o@.e6, self@.d, 0x4000_0000_0000_0000, 0x4000_0000_0000_0000);
            lemma_mul_bound(self@.e7, o@.d, 0x4000_0000_0000_0000, 0x4000_0000_0000_0000);
            lemma_mul_bound(o@.e7, self@.d, 0x4000_0000_0000_0000, 0x4000_0000_0000_0000);
            lemma_mul_bound(self@.e8, o@.d, 0x4000_0000_0000_0000, 0x4000_0000_0000_0000);
            lemma_mul_bound(o@.e8, self@.d, 0x4000_0000_0000_0000, 0x4000_0000_0000_0000);
            lemma_mul_bound(self@.e9, o@.d, 0x4000_0000_0000_0000, 0x4000_0000_0000_0000);
            lemma_mul_bound(o@.e9, self@.d, 0x4000_0000_0000_0000, 0x4000_0000_0000_0000);
            lemma_mul_bound(self@.e10, o@.d, 0x4000_0000_0000_0000, 0x4000_0000_0000_0000);
            lemma_mul_bound(o@.e10, self@.d, 0x4000_0000_0000_0000, 0x4000_0000_0000_0000);
            lemma_mul_bound(self@.e11, o@.d, 0x4000_0000_0000_0000, 0x4000_0000_0000_0000);
            lemma_mul_bound(o@.e11, self@.d, 0x4000_0000_0000_0000, 0x4000_0000_0000_0000);
            lemma_mul_bound(self@.e12, o@.d, 0x4000_0000_0000_0000, 0x4000_0000_0000_0000);
            lemma_mul_bound(o@.e12, self@.d, 0x4000_0000_0000_0000, 0x4000_0000_0000_0000);
            lemma_mul_bound(self@.e13, o@.d, 0x4000_0000_0000_0000, 0x4000_0000_0000_0000);
            lemma_mul_bound(o@.e13, self@.d, 0x4000_0000_0000_0000, 0x4000_0000_0000_0000);
            lemma_mul_bound(self@.e14, o@.d, 0x4000_0000_0000_0000, 0x4000_0000_0000_0000);
            lemma_mul_bound(o@.e14, self@.d, 0x4000_0000_0000_0000, 0x4000_0000_0000_0000);
            lemma_mul_bound(self@.e15, o@.d, 0x4000_0000_0000_0000, 0x4000_0000_0000_0000);
            lemma_mul_bound(o@.e15, self@.d, 0x4000_0000_0000_0000, 0x4000_0000_0000_0000);
        }
        self.m0 * o.d == o.m0 * self.d && self.m1 * o.d == o.m1 * self.d && self.m2 * o.d == o.m2 * self.d && self.m3 * o.d == o.m3 * self.d && self.m4 * o.d == o.m4 * self.d && self.m5 * o.d == o.m5 * self.d && self.m6 * o.d == o.m6 * self.d && self.m7 * o.d == o.m7 * self.d && self.m8 * o.d == o.m8 * self.d && self.m9 * o.d == o.m9 * self.d && self.m10 * o.d == o.m10 * self.d && self.m11 * o.d == o.m11 * self.d && self.m12 * o.d == o.m12 * self.d && self.m13 * o.d == o.m13 * self.d && self.m14 * o.d == o.m14 * self.d && self.m15 * o.d == o.m15 * self.d
    }
}

} // verus!
