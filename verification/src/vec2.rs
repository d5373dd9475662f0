//! 2D vectors over exact rational scalars.
//!
//! Elementwise and broadcast arithmetic, dot and 2D cross products, complex
//! multiplication and division, and componentwise min/max/floor/ceil, each
//! with an exact contract. Norms, distances and unit vectors need square
//! roots, which are irrational; they belong to the float layer outside this
//! crate.

use vstd::prelude::*;
use crate::rat::Scal;
use crate::rat::rat_add;
use crate::rat::rat_sub;
use crate::rat::rat_mul;
use crate::rat::rat_div;
use crate::rat::rat_neg;
use crate::rat::rat_le;
use crate::rat::rat_floor;
use crate::rat::rat_ceil;
use crate::rat::rat_in;
use crate::rat::fits;
use crate::rat::add_fits;
use crate::rat::mul_fits;
use crate::rat::div_fits;
use crate::rat::cmp_fits;
use crate::rat::lemma_add_in;
use crate::rat::lemma_mul_in;
use crate::rat::lemma_div_in;

verus! {

/// A 2D vector of exact rational scalars.
#[derive(Clone, Copy, Debug, PartialEq, Eq, Structural)]
pub struct Vec2 {
    pub x: Scal,
    pub y: Scal,
}

/// Vector from two scalars.
pub fn vec2(x: Scal, y: Scal) -> (r: Vec2)
    ensures
        r == (Vec2 { x, y }),
{
    Vec2 { x, y }
}

/// Both components are well-formed fractions.
pub open spec fn vec2_wf(v: Vec2) -> bool {
    v.x.wf() && v.y.wf()
}

/// Both components are bounded by `b` (see [`rat_in`]).
pub open spec fn vec2_in(v: Vec2, b: int) -> bool {
    rat_in(v.x@, b) && rat_in(v.y@, b)
}

impl Vec2 {
    /// Elementwise sum.
    pub fn add(self, o: Vec2) -> (r: Vec2)
        requires
            vec2_wf(self),
            vec2_wf(o),
            add_fits(self.x@, o.x@),
            add_fits(self.y@, o.y@),
        ensures
            vec2_wf(r),
            r.x@ == rat_add(self.x@, o.x@),
            r.y@ == rat_add(self.y@, o.y@),
    {
        Vec2 { x: self.x.add(o.x), y: self.y.add(o.y) }
    }

    /// Elementwise difference.
    pub fn sub(self, o: Vec2) -> (r: Vec2)
        requires
            vec2_wf(self),
            vec2_wf(o),
            add_fits(self.x@, o.x@),
            add_fits(self.y@, o.y@),
        ensures
            vec2_wf(r),
            r.x@ == rat_sub(self.x@, o.x@),
            r.y@ == rat_sub(self.y@, o.y@),
    {
        Vec2 { x: self.x.sub(o.x), y: self.y.sub(o.y) }
    }

    /// Elementwise product.
    pub fn mul(self, o: Vec2) -> (r: Vec2)
        requires
            vec2_wf(self),
            vec2_wf(o),
            mul_fits(self.x@, o.x@),
            mul_fits(self.y@, o.y@),
        ensures
            vec2_wf(r),
            r.x@ == rat_mul(self.x@, o.x@),
            r.y@ == rat_mul(self.y@, o.y@),
    {
        Vec2 { x: self.x.mul(o.x), y: self.y.mul(o.y) }
    }

    /// Elementwise quotient; zero divisor components are excluded.
    pub fn div(self, o: Vec2) -> (r: Vec2)
        requires
            vec2_wf(self),
            vec2_wf(o),
            o.x@.n != 0,
            o.y@.n != 0,
            div_fits(self.x@, o.x@),
            div_fits(self.y@, o.y@),
        ensures
            vec2_wf(r),
            r.x@ == rat_div(self.x@, o.x@),
            r.y@ == rat_div(self.y@, o.y@),
    {
        Vec2 { x: self.x.div(o.x), y: self.y.div(o.y) }
    }

    /// Broadcast sum: `s` added to both components.
    pub fn add_s(self, s: Scal) -> (r: Vec2)
        requires
            vec2_wf(self),
            s.wf(),
            add_fits(self.x@, s@),
            add_fits(self.y@, s@),
        ensures
            vec2_wf(r),
            r.x@ == rat_add(self.x@, s@),
            r.y@ == rat_add(self.y@, s@),
    {
        Vec2 { x: self.x.add(s), y: self.y.add(s) }
    }

    /// Broadcast difference: `s` subtracted from both components.
    pub fn sub_s(self, s: Scal) -> (r: Vec2)
        requires
            vec2_wf(self),
            s.wf(),
            add_fits(self.x@, s@),
            add_fits(self.y@, s@),
        ensures
            vec2_wf(r),
            r.x@ == rat_sub(self.x@, s@),
            r.y@ == rat_sub(self.y@, s@),
    {
        Vec2 { x: self.x.sub(s), y: self.y.sub(s) }
    }

    /// Broadcast product: both components scaled by `s`.
    pub fn mul_s(self, s: Scal) -> (r: Vec2)
        requires
            vec2_wf(self),
            s.wf(),
            mul_fits(self.x@, s@),
            mul_fits(self.y@, s@),
        ensures
            vec2_wf(r),
            r.x@ == rat_mul(self.x@, s@),
            r.y@ == rat_mul(self.y@, s@),
    {
        Vec2 { x: self.x.mul(s), y: self.y.mul(s) }
    }

    /// Broadcast quotient: both components divided by a nonzero `s`.
    pub fn div_s(self, s: Scal) -> (r: Vec2)
        requires
            vec2_wf(self),
            s.wf(),
            s@.n != 0,
            div_fits(self.x@, s@),
            div_fits(self.y@, s@),
        ensures
            vec2_wf(r),
            r.x@ == rat_div(self.x@, s@),
            r.y@ == rat_div(self.y@, s@),
    {
        Vec2 { x: self.x.div(s), y: self.y.div(s) }
    }

    /// Negation of both components.
    pub fn neg(self) -> (r: Vec2)
        requires
            vec2_wf(self),
            fits(-self.x@.n),
            fits(-self.y@.n),
        ensures
            vec2_wf(r),
            r.x@ == rat_neg(self.x@),
            r.y@ == rat_neg(self.y@),
    {
        Vec2 { x: self.x.neg(), y: self.y.neg() }
    }

    /// Dot product: `x*o.x + y*o.y`.
    pub fn dot(self, o: Vec2) -> (r: Scal)
        requires
            vec2_wf(self),
            vec2_wf(o),
            vec2_in(self, 0x4000_0000),
            vec2_in(o, 0x4000_0000),
        ensures
            r.wf(),
            r@ == rat_add(rat_mul(self.x@, o.x@), rat_mul(self.y@, o.y@)),
    {
        proof {
            lemma_mul_in(self.x@, o.x@, 0x4000_0000, 0x4000_0000);
            lemma_mul_in(self.y@, o.y@, 0x4000_0000, 0x4000_0000);
            lemma_add_in(
                rat_mul(self.x@, o.x@),
                rat_mul(self.y@, o.y@),
                0x1000_0000_0000_0000,
                0x1000_0000_0000_0000,
            );
        }
        self.x.mul(o.x).add(self.y.mul(o.y))
    }

    /// 2D scalar cross product (the determinant): `x*o.y - o.x*y`.
    pub fn cross(self, o: Vec2) -> (r: Scal)
        requires
            vec2_wf(self),
            vec2_wf(o),
            vec2_in(self, 0x4000_0000),
            vec2_in(o, 0x4000_0000),
        ensures
            r.wf(),
            r@ == rat_sub(rat_mul(self.x@, o.y@), rat_mul(o.x@, self.y@)),
    {
        proof {
            lemma_mul_in(self.x@, o.y@, 0x4000_0000, 0x4000_0000);
            lemma_mul_in(o.x@, self.y@, 0x4000_0000, 0x4000_0000);
            lemma_add_in(
                rat_mul(self.x@, o.y@),
                rat_mul(o.x@, self.y@),
                0x1000_0000_0000_0000,
                0x1000_0000_0000_0000,
            );
        }
        self.x.mul(o.y).sub(o.x.mul(self.y))
    }

    /// Componentwise linear interpolation, with the library's one lerp
    /// convention `(1 - t) * a + t * b` (see [`crate::util::lerp`]).
    pub fn lerp(self, o: Vec2, t: Scal) -> (r: Vec2)
        requires
            vec2_wf(self),
            vec2_wf(o),
            t.wf(),
            vec2_in(self, 0x4000_0000),
            vec2_in(o, 0x4000_0000),
            rat_in(t@, 0x4000_0000),
        ensures
            vec2_wf(r),
            r.x@ == crate::util::spec_lerp(self.x@, o.x@, t@),
            r.y@ == crate::util::spec_lerp(self.y@, o.y@, t@),
    {
        Vec2 { x: crate::util::lerp(self.x, o.x, t), y: crate::util::lerp(self.y, o.y, t) }
    }

    /// Componentwise smaller value.
    pub fn min(self, o: Vec2) -> (r: Vec2)
        requires
            vec2_wf(self),
            vec2_wf(o),
            cmp_fits(self.x@, o.x@),
            cmp_fits(self.y@, o.y@),
        ensures
            r.x == if rat_le(self.x@, o.x@) { self.x } else { o.x },
            r.y == if rat_le(self.y@, o.y@) { self.y } else { o.y },
    {
        Vec2 { x: self.x.min(o.x), y: self.y.min(o.y) }
    }

    /// Componentwise larger value.
    pub fn max(self, o: Vec2) -> (r: Vec2)
        requires
            vec2_wf(self),
            vec2_wf(o),
            cmp_fits(self.x@, o.x@),
            cmp_fits(self.y@, o.y@),
        ensures
            r.x == if rat_le(o.x@, self.x@) { self.x } else { o.x },
            r.y == if rat_le(o.y@, self.y@) { self.y } else { o.y },
    {
        Vec2 { x: self.x.max(o.x), y: self.y.max(o.y) }
    }

    /// Componentwise floor.
    pub fn floor(self) -> (r: Vec2)
        requires
            vec2_wf(self),
            i128::MIN < self.x.n,
            i128::MIN < self.y.n,
        ensures
            vec2_wf(r),
            r.x.d == 1 && r.x.n == rat_floor(self.x@),
            r.y.d == 1 && r.y.n == rat_floor(self.y@),
    {
        Vec2 { x: self.x.floor(), y: self.y.floor() }
    }

    /// Componentwise ceiling.
    pub fn ceil(self) -> (r: Vec2)
        requires
            vec2_wf(self),
            i128::MIN < self.x.n,
            i128::MIN < self.y.n,
            fits(self.x@.n + self.x@.d),
            fits(self.y@.n + self.y@.d),
        ensures
            vec2_wf(r),
            r.x.d == 1 && r.x.n == rat_ceil(self.x@),
            r.y.d == 1 && r.y.n == rat_ceil(self.y@),
    {
        Vec2 { x: self.x.ceil(), y: self.y.ceil() }
    }

    /// Complex product, reading each vector as `x + y*i`:
    /// `(a,b)*(c,d) = (a*c - b*d, a*d + c*b)`.
    pub fn mul_complex(self, o: Vec2) -> (r: Vec2)
        requires
            vec2_wf(self),
            vec2_wf(o),
            vec2_in(self, 0x4000_0000),
            vec2_in(o, 0x4000_0000),
        ensures
            vec2_wf(r),
            r.x@ == rat_sub(rat_mul(self.x@, o.x@), rat_mul(self.y@, o.y@)),
            r.y@ == rat_add(rat_mul(self.x@, o.y@), rat_mul(o.x@, self.y@)),
    {
        proof {
            lemma_mul_in(self.x@, o.x@, 0x4000_0000, 0x4000_0000);
            lemma_mul_in(self.y@, o.y@, 0x4000_0000, 0x4000_0000);
            lemma_mul_in(self.x@, o.y@, 0x4000_0000, 0x4000_0000);
            lemma_mul_in(o.x@, self.y@, 0x4000_0000, 0x4000_0000);
            lemma_add_in(
                rat_mul(self.x@, o.x@),
                rat_mul(self.y@, o.y@),
                0x1000_0000_0000_0000,
                0x1000_0000_0000_0000,
            );
            lemma_add_in(
                rat_mul(self.x@, o.y@),
                rat_mul(o.x@, self.y@),
                0x1000_0000_0000_0000,
                0x1000_0000_0000_0000,
            );
        }
        Vec2 {
            x: self.x.mul(o.x).sub(self.y.mul(o.y)),
            y: self.x.mul(o.y).add(o.x.mul(self.y)),
        }
    }

    /// Complex quotient, reading each vector as `x + y*i`:
    /// `(a,b)/(c,d) = ((a*c + b*d)/(c*c + d*d), (b*c - a*d)/(c*c + d*d))`.
    /// A divisor of zero magnitude is excluded by precondition; this library
    /// does not produce infinities.
    pub fn div_complex(self, o: Vec2) -> (r: Vec2)
        requires
            vec2_wf(self),
            vec2_wf(o),
            o.x@.n != 0 || o.y@.n != 0,
            vec2_in(self, 0x8000),
            vec2_in(o, 0x8000),
        ensures
            vec2_wf(r),
            r.x@ == rat_div(
                rat_add(rat_mul(self.x@, o.x@), rat_mul(self.y@, o.y@)),
                rat_add(rat_mul(o.x@, o.x@), rat_mul(o.y@, o.y@)),
            ),
            r.y@ == rat_div(
                rat_sub(rat_mul(self.y@, o.x@), rat_mul(self.x@, o.y@)),
                rat_add(rat_mul(o.x@, o.x@), rat_mul(o.y@, o.y@)),
            ),
    {
        proof {
            lemma_mul_in(o.x@, o.x@, 0x8000, 0x8000);
            lemma_mul_in(o.y@, o.y@, 0x8000, 0x8000);
            lemma_add_in(
                rat_mul(o.x@, o.x@),
                rat_mul(o.y@, o.y@),
                0x4000_0000,
                0x4000_0000,
            );
            lemma_mul_in(self.x@, o.x@, 0x8000, 0x8000);
            lemma_mul_in(self.y@, o.y@, 0x8000, 0x8000);
            lemma_add_in(
                rat_mul(self.x@, o.x@),
                rat_mul(self.y@, o.y@),
                0x4000_0000,
                0x4000_0000,
            );
            lemma_mul_in(self.y@, o.x@, 0x8000, 0x8000);
            lemma_mul_in(self.x@, o.y@, 0x8000, 0x8000);
            lemma_add_in(
                rat_mul(self.y@, o.x@),
                rat_mul(self.x@, o.y@),
                0x4000_0000,
                0x4000_0000,
            );
            let den = rat_add(rat_mul(o.x@, o.x@), rat_mul(o.y@, o.y@));
            assert(den.n > 0) by (nonlinear_arith)
                requires
                    den == rat_add(rat_mul(o.x@, o.x@), rat_mul(o.y@, o.y@)),
                    o.x@.d >= 1,
                    o.y@.d >= 1,
                    o.x@.n != 0 || o.y@.n != 0,
            ;
            lemma_div_in(
                rat_add(rat_mul(self.x@, o.x@), rat_mul(self.y@, o.y@)),
                den,
                0x2000_0000_0000_0000,
                0x2000_0000_0000_0000,
            );
            lemma_div_in(
                rat_sub(rat_mul(self.y@, o.x@), rat_mul(self.x@, o.y@)),
                den,
                0x2000_0000_0000_0000,
                0x2000_0000_0000_0000,
            );
        }
        let denom = o.x.mul(o.x).add(o.y.mul(o.y));
        Vec2 {
            x: self.x.mul(o.x).add(self.y.mul(o.y)).div(denom),
            y: self.y.mul(o.x).sub(self.x.mul(o.y)).div(denom),
        }
    }
}

} // verus!
