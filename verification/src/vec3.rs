//! 3D vectors over exact rational scalars.
//!
//! Elementwise and broadcast arithmetic, dot and cross products,
//! componentwise min/max/floor/ceil, and projection to 2D. Norms and unit
//! vectors need square roots, which are irrational; they belong to the float
//! layer outside this crate, as do the spherical-coordinate conversions.

use vstd::prelude::*;
use crate::rat::Scal;
use crate::rat::rat_add;
use crate::rat::rat_sub;
use crate::rat::rat_mul;
use crate::rat::rat_div;
use crate::rat::rat_neg;
use crate::rat::rat_le;
use crate::rat::rat_floor;
use crate::rat::rat_ceil;
use crate::rat::rat_in;
use crate::rat::fits;
use crate::rat::add_fits;
use crate::rat::mul_fits;
use crate::rat::div_fits;
use crate::rat::cmp_fits;
use crate::rat::lemma_add_in;
use crate::rat::lemma_mul_in;
use crate::vec2::Vec2;

verus! {

/// A 3D vector of exact rational scalars.
#[derive(Clone, Copy, Debug, PartialEq, Eq, Structural)]
pub struct Vec3 {
    pub x: Scal,
    pub y: Scal,
    pub z: Scal,
}

/// Vector from three scalars.
pub fn vec3(x: Scal, y: Scal, z: Scal) -> (r: Vec3)
    ensures
        r == (Vec3 { x, y, z }),
{
    Vec3 { x, y, z }
}

/// All components are well-formed fractions.
pub open spec fn vec3_wf(v: Vec3) -> bool {
    v.x.wf() && v.y.wf() && v.z.wf()
}

/// All components are bounded by `b` (see [`rat_in`]).
pub open spec fn vec3_in(v: Vec3, b: int) -> bool {
    rat_in(v.x@, b) && rat_in(v.y@, b) && rat_in(v.z@, b)
}

impl Vec3 {
    /// Elementwise sum.
    pub fn add(self, o: Vec3) -> (r: Vec3)
        requires
            vec3_wf(self),
            vec3_wf(o),
            add_fits(self.x@, o.x@),
            add_fits(self.y@, o.y@),
            add_fits(self.z@, o.z@),
        ensures
            vec3_wf(r),
            r.x@ == rat_add(self.x@, o.x@),
            r.y@ == rat_add(self.y@, o.y@),
            r.z@ == rat_add(self.z@, o.z@),
    {
        Vec3 { x: self.x.add(o.x), y: self.y.add(o.y), z: self.z.add(o.z) }
    }

    /// Elementwise difference.
    pub fn sub(self, o: Vec3) -> (r: Vec3)
        requires
            vec3_wf(self),
            vec3_wf(o),
            add_fits(self.x@, o.x@),
            add_fits(self.y@, o.y@),
            add_fits(self.z@, o.z@),
        ensures
            vec3_wf(r),
            r.x@ == rat_sub(self.x@, o.x@),
            r.y@ == rat_sub(self.y@, o.y@),
            r.z@ == rat_sub(self.z@, o.z@),
    {
        Vec3 { x: self.x.sub(o.x), y: self.y.sub(o.y), z: self.z.sub(o.z) }
    }

    /// Elementwise product.
    pub fn mul(self, o: Vec3) -> (r: Vec3)
        requires
            vec3_wf(self),
            vec3_wf(o),
            mul_fits(self.x@, o.x@),
            mul_fits(self.y@, o.y@),
            mul_fits(self.z@, o.z@),
        ensures
            vec3_wf(r),
            r.x@ == rat_mul(self.x@, o.x@),
            r.y@ == rat_mul(self.y@, o.y@),
            r.z@ == rat_mul(self.z@, o.z@),
    {
        Vec3 { x: self.x.mul(o.x), y: self.y.mul(o.y), z: self.z.mul(o.z) }
    }

    /// Elementwise quotient; zero divisor components are excluded.
    pub fn div(self, o: Vec3) -> (r: Vec3)
        requires
            vec3_wf(self),
            vec3_wf(o),
            o.x@.n != 0,
            o.y@.n != 0,
            o.z@.n != 0,
            div_fits(self.x@, o.x@),
            div_fits(self.y@, o.y@),
            div_fits(self.z@, o.z@),
        ensures
            vec3_wf(r),
            r.x@ == rat_div(self.x@, o.x@),
            r.y@ == rat_div(self.y@, o.y@),
            r.z@ == rat_div(self.z@, o.z@),
    {
        Vec3 { x: self.x.div(o.x), y: self.y.div(o.y), z: self.z.div(o.z) }
    }

    /// Broadcast sum: `s` added to every component.
    pub fn add_s(self, s: Scal) -> (r: Vec3)
        requires
            vec3_wf(self),
            s.wf(),
            add_fits(self.x@, s@),
            add_fits(self.y@, s@),
            add_fits(self.z@, s@),
        ensures
            vec3_wf(r),
            r.x@ == rat_add(self.x@, s@),
            r.y@ == rat_add(self.y@, s@),
            r.z@ == rat_add(self.z@, s@),
    {
        Vec3 { x: self.x.add(s), y: self.y.add(s), z: self.z.add(s) }
    }

    /// Broadcast difference: `s` subtracted from every component.
    pub fn sub_s(self, s: Scal) -> (r: Vec3)
        requires
            vec3_wf(self),
            s.wf(),
            add_fits(self.x@, s@),
            add_fits(self.y@, s@),
            add_fits(self.z@, s@),
        ensures
            vec3_wf(r),
            r.x@ == rat_sub(self.x@, s@),
            r.y@ == rat_sub(self.y@, s@),
            r.z@ == rat_sub(self.z@, s@),
    {
        Vec3 { x: self.x.sub(s), y: self.y.sub(s), z: self.z.sub(s) }
    }

    /// Broadcast product: every component scaled by `s`.
    pub fn mul_s(self, s: Scal) -> (r: Vec3)
        requires
            vec3_wf(self),
            s.wf(),
            mul_fits(self.x@, s@),
            mul_fits(self.y@, s@),
            mul_fits(self.z@, s@),
        ensures
            vec3_wf(r),
            r.x@ == rat_mul(self.x@, s@),
            r.y@ == rat_mul(self.y@, s@),
            r.z@ == rat_mul(self.z@, s@),
    {
        Vec3 { x: self.x.mul(s), y: self.y.mul(s), z: self.z.mul(s) }
    }

    /// Broadcast quotient: every component divided by a nonzero `s`.
    pub fn div_s(self, s: Scal) -> (r: Vec3)
        requires
            vec3_wf(self),
            s.wf(),
            s@.n != 0,
            div_fits(self.x@, s@),
            div_fits(self.y@, s@),
            div_fits(self.z@, s@),
        ensures
            vec3_wf(r),
            r.x@ == rat_div(self.x@, s@),
            r.y@ == rat_div(self.y@, s@),
            r.z@ == rat_div(self.z@, s@),
    {
        Vec3 { x: self.x.div(s), y: self.y.div(s), z: self.z.div(s) }
    }

    /// Negation of every component.
    pub fn neg(self) -> (r: Vec3)
        requires
            vec3_wf(self),
            fits(-self.x@.n),
            fits(-self.y@.n),
            fits(-self.z@.n),
        ensures
            vec3_wf(r),
            r.x@ == rat_neg(self.x@),
            r.y@ == rat_neg(self.y@),
            r.z@ == rat_neg(self.z@),
    {
        Vec3 { x: self.x.neg(), y: self.y.neg(), z: self.z.neg() }
    }

    /// Dot product: `x*o.x + y*o.y + z*o.z`.
    pub fn dot(self, o: Vec3) -> (r: Scal)
        requires
            vec3_wf(self),
            vec3_wf(o),
            vec3_in(self, 0x10_0000),
            vec3_in(o, 0x10_0000),
        ensures
            r.wf(),
            r@ == rat_add(
                rat_add(rat_mul(self.x@, o.x@), rat_mul(self.y@, o.y@)),
                rat_mul(self.z@, o.z@),
            ),
    {
        proof {
            lemma_mul_in(self.x@, o.x@, 0x10_0000, 0x10_0000);
            lemma_mul_in(self.y@, o.y@, 0x10_0000, 0x10_0000);
            lemma_mul_in(self.z@, o.z@, 0x10_0000, 0x10_0000);
            lemma_add_in(
                rat_mul(self.x@, o.x@),
                rat_mul(self.y@, o.y@),
                0x100_0000_0000,
                0x100_0000_0000,
            );
            lemma_add_in(
                rat_add(rat_mul(self.x@, o.x@), rat_mul(self.y@, o.y@)),
                rat_mul(self.z@, o.z@),
                0x2_0000_0000_0000_0000_0000,
                0x100_0000_0000,
            );
        }
        self.x.mul(o.x).add(self.y.mul(o.y)).add(self.z.mul(o.z))
    }

    /// 3D cross product.
    pub fn cross(self, o: Vec3) -> (r: Vec3)
        requires
            vec3_wf(self),
            vec3_wf(o),
            vec3_in(self, 0x4000_0000),
            vec3_in(o, 0x4000_0000),
        ensures
            vec3_wf(r),
            r.x@ == rat_sub(rat_mul(self.y@, o.z@), rat_mul(self.z@, o.y@)),
            r.y@ == rat_sub(rat_mul(self.z@, o.x@), rat_mul(self.x@, o.z@)),
            r.z@ == rat_sub(rat_mul(self.x@, o.y@), rat_mul(self.y@, o.x@)),
    {
        proof {
            lemma_mul_in(self.y@, o.z@, 0x4000_0000, 0x4000_0000);
            lemma_mul_in(self.z@, o.y@, 0x4000_0000, 0x4000_0000);
            lemma_mul_in(self.z@, o.x@, 0x4000_0000, 0x4000_0000);
            lemma_mul_in(self.x@, o.z@, 0x4000_0000, 0x4000_0000);
            lemma_mul_in(self.x@, o.y@, 0x4000_0000, 0x4000_0000);
            lemma_mul_in(self.y@, o.x@, 0x4000_0000, 0x4000_0000);
            lemma_add_in(
                rat_mul(self.y@, o.z@),
                rat_mul(self.z@, o.y@),
                0x1000_0000_0000_0000,
                0x1000_0000_0000_0000,
            );
            lemma_add_in(
                rat_mul(self.z@, o.x@),
                rat_mul(self.x@, o.z@),
                0x1000_0000_0000_0000,
                0x1000_0000_0000_0000,
            );
            lemma_add_in(
                rat_mul(self.x@, o.y@),
                rat_mul(self.y@, o.x@),
                0x1000_0000_0000_0000,
                0x1000_0000_0000_0000,
            );
        }
        Vec3 {
            x: self.y.mul(o.z).sub(self.z.mul(o.y)),
            y: self.z.mul(o.x).sub(self.x.mul(o.z)),
            z: self.x.mul(o.y).sub(self.y.mul(o.x)),
        }
    }

    /// Componentwise linear interpolation, with the library's one lerp
    /// convention `(1 - t) * a + t * b` (see [`crate::util::lerp`]).
    pub fn lerp(self, o: Vec3, t: Scal) -> (r: Vec3)
        requires
            vec3_wf(self),
            vec3_wf(o),
            t.wf(),
            vec3_in(self, 0x4000_0000),
            vec3_in(o, 0x4000_0000),
            rat_in(t@, 0x4000_0000),
        ensures
            vec3_wf(r),
            r.x@ == crate::util::spec_lerp(self.x@, o.x@, t@),
            r.y@ == crate::util::spec_lerp(self.y@, o.y@, t@),
            r.z@ == crate::util::spec_lerp(self.z@, o.z@, t@),
    {
        Vec3 {
            x: crate::util::lerp(self.x, o.x, t),
            y: crate::util::lerp(self.y, o.y, t),
            z: crate::util::lerp(self.z, o.z, t),
        }
    }

    /// Componentwise smaller value.
    pub fn min(self, o: Vec3) -> (r: Vec3)
        requires
            vec3_wf(self),
            vec3_wf(o),
            cmp_fits(self.x@, o.x@),
            cmp_fits(self.y@, o.y@),
            cmp_fits(self.z@, o.z@),
        ensures
            r.x == if rat_le(self.x@, o.x@) { self.x } else { o.x },
            r.y == if rat_le(self.y@, o.y@) { self.y } else { o.y },
            r.z == if rat_le(self.z@, o.z@) { self.z } else { o.z },
    {
        Vec3 { x: self.x.min(o.x), y: self.y.min(o.y), z: self.z.min(o.z) }
    }

    /// Componentwise larger value.
    pub fn max(self, o: Vec3) -> (r: Vec3)
        requires
            vec3_wf(self),
            vec3_wf(o),
            cmp_fits(self.x@, o.x@),
            cmp_fits(self.y@, o.y@),
            cmp_fits(self.z@, o.z@),
        ensures
            r.x == if rat_le(o.x@, self.x@) { self.x } else { o.x },
            r.y == if rat_le(o.y@, self.y@) { self.y } else { o.y },
            r.z == if rat_le(o.z@, self.z@) { self.z } else { o.z },
    {
        Vec3 { x: self.x.max(o.x), y: self.y.max(o.y), z: self.z.max(o.z) }
    }

    /// Componentwise floor.
    pub fn floor(self) -> (r: Vec3)
        requires
            vec3_wf(self),
            i128::MIN < self.x.n,
            i128::MIN < self.y.n,
            i128::MIN < self.z.n,
        ensures
            vec3_wf(r),
            r.x.d == 1 && r.x.n == rat_floor(self.x@),
            r.y.d == 1 && r.y.n == rat_floor(self.y@),
            r.z.d == 1 && r.z.n == rat_floor(self.z@),
    {
        Vec3 { x: self.x.floor(), y: self.y.floor(), z: self.z.floor() }
    }

    /// Componentwise ceiling.
    pub fn ceil(self) -> (r: Vec3)
        requires
            vec3_wf(self),
            i128::MIN < self.x.n,
            i128::MIN < self.y.n,
            i128::MIN < self.z.n,
            fits(self.x@.n + self.x@.d),
            fits(self.y@.n + self.y@.d),
            fits(self.z@.n + self.z@.d),
        ensures
            vec3_wf(r),
            r.x.d == 1 && r.x.n == rat_ceil(self.x@),
            r.y.d == 1 && r.y.n == rat_ceil(self.y@),
            r.z.d == 1 && r.z.n == rat_ceil(self.z@),
    {
        Vec3 { x: self.x.ceil(), y: self.y.ceil(), z: self.z.ceil() }
    }

    /// Projection to 2D by dropping `z`.
    pub fn xy(self) -> (r: Vec2)
        ensures
            r == (Vec2 { x: self.x, y: self.y }),
    {
        Vec2 { x: self.x, y: self.y }
    }
}

} // verus!
