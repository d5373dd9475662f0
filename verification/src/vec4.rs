//! 4D vectors over exact rational scalars, and HSV to RGB conversion.
//!
//! Elementwise and broadcast arithmetic, dot product, componentwise
//! floor/ceil, and the exact HSV hexagon decomposition. Norms and unit
//! vectors need square roots, which are irrational; they belong to the float
//! layer outside this crate.

use vstd::prelude::*;
use crate::rat::Rat;
use crate::rat::Scal;
use crate::rat::scal_int;
use crate::rat::rat_add;
use crate::rat::rat_sub;
use crate::rat::rat_mul;
use crate::rat::rat_div;
use crate::rat::rat_neg;
use crate::rat::rat_floor;
use crate::rat::rat_ceil;
use crate::rat::rat_of_int;
use crate::rat::rat_one;
use crate::rat::rat_in;
use crate::rat::rat_le;
use crate::rat::rat_lt;
use crate::rat::fits;
use crate::rat::add_fits;
use crate::rat::mul_fits;
use crate::rat::div_fits;
use crate::rat::lemma_add_in;
use crate::rat::lemma_mul_in;
use crate::rat::lemma_div_in;

verus! {

/// A 4D vector of exact rational scalars. For the colour conversion the
/// components are read as hue, saturation, value and alpha.
#[derive(Clone, Copy, Debug, PartialEq, Eq, Structural)]
pub struct Vec4 {
    pub x: Scal,
    pub y: Scal,
    pub z: Scal,
    pub w: Scal,
}

/// Vector from four scalars.
pub fn vec4(x: Scal, y: Scal, z: Scal, w: Scal) -> (r: Vec4)
    ensures
        r == (Vec4 { x, y, z, w }),
{
    Vec4 { x, y, z, w }
}

/// All components are well-formed fractions.
pub open spec fn vec4_wf(v: Vec4) -> bool {
    v.x.wf() && v.y.wf() && v.z.wf() && v.w.wf()
}

/// All components are bounded by `b` (see [`rat_in`]).
pub open spec fn vec4_in(v: Vec4, b: int) -> bool {
    rat_in(v.x@, b) && rat_in(v.y@, b) && rat_in(v.z@, b) && rat_in(v.w@, b)
}

/// Hue reduced to `[0, 360)`: `h - 360 * floor(h / 360)`.
pub open spec fn rat_mod360(h: Rat) -> Rat {
    rat_sub(h, rat_mul(rat_of_int(360), rat_of_int(rat_floor(rat_div(h, rat_of_int(360))))))
}

/// Which sixth of the hue circle `h` falls in: an integer in `[0, 5]`.
pub open spec fn hsv_sector(h: Rat) -> int {
    rat_floor(rat_div(rat_mod360(h), rat_of_int(60)))
}

/// Position of `h` within its sector, in `[0, 1)`.
pub open spec fn hsv_ff(h: Rat) -> Rat {
    rat_sub(rat_div(rat_mod360(h), rat_of_int(60)), rat_of_int(hsv_sector(h)))
}

/// The three chroma values of the HSV hexagon decomposition.
pub open spec fn hsv_p(s: Rat, v: Rat) -> Rat {
    rat_mul(v, rat_sub(rat_one(), s))
}

pub open spec fn hsv_q(s: Rat, v: Rat, ff: Rat) -> Rat {
    rat_mul(v, rat_sub(rat_one(), rat_mul(s, ff)))
}

pub open spec fn hsv_t(s: Rat, v: Rat, ff: Rat) -> Rat {
    rat_mul(v, rat_sub(rat_one(), rat_mul(s, rat_sub(rat_one(), ff))))
}

/// The red, green and blue values for hue `h`, saturation `s` and value `v`,
/// by the standard six-way sector table.
pub open spec fn spec_hsv_rgb(h: Rat, s: Rat, v: Rat) -> (Rat, Rat, Rat) {
    let i = hsv_sector(h);
    let ff = hsv_ff(h);
    let p = hsv_p(s, v);
    let q = hsv_q(s, v, ff);
    let t = hsv_t(s, v, ff);
    if i == 0 {
        (v, t, p)
    } else if i == 1 {
        (q, v, p)
    } else if i == 2 {
        (p, v, t)
    } else if i == 3 {
        (p, q, v)
    } else if i == 4 {
        (t, p, v)
    } else {
        (v, p, q)
    }
}

impl Vec4 {
    /// Elementwise sum.
    pub fn add(self, o: Vec4) -> (r: Vec4)
        requires
            vec4_wf(self),
            vec4_wf(o),
            add_fits(self.x@, o.x@),
            add_fits(self.y@, o.y@),
            add_fits(self.z@, o.z@),
            add_fits(self.w@, o.w@),
        ensures
            vec4_wf(r),
            r.x@ == rat_add(self.x@, o.x@),
            r.y@ == rat_add(self.y@, o.y@),
            r.z@ == rat_add(self.z@, o.z@),
            r.w@ == rat_add(self.w@, o.w@),
    {
        Vec4 { x: self.x.add(o.x), y: self.y.add(o.y), z: self.z.add(o.z), w: self.w.add(o.w) }
    }

    /// Elementwise difference.
    pub fn sub(self, o: Vec4) -> (r: Vec4)
        requires
            vec4_wf(self),
            vec4_wf(o),
            add_fits(self.x@, o.x@),
            add_fits(self.y@, o.y@),
            add_fits(self.z@, o.z@),
            add_fits(self.w@, o.w@),
        ensures
            vec4_wf(r),
            r.x@ == rat_sub(self.x@, o.x@),
            r.y@ == rat_sub(self.y@, o.y@),
            r.z@ == rat_sub(self.z@, o.z@),
            r.w@ == rat_sub(self.w@, o.w@),
    {
        Vec4 { x: self.x.sub(o.x), y: self.y.sub(o.y), z: self.z.sub(o.z), w: self.w.sub(o.w) }
    }

    /// Broadcast sum: `s` added to every component.
    pub fn add_s(self, s: Scal) -> (r: Vec4)
        requires
            vec4_wf(self),
            s.wf(),
            add_fits(self.x@, s@),
            add_fits(self.y@, s@),
            add_fits(self.z@, s@),
            add_fits(self.w@, s@),
        ensures
            vec4_wf(r),
            r.x@ == rat_add(self.x@, s@),
            r.y@ == rat_add(self.y@, s@),
            r.z@ == rat_add(self.z@, s@),
            r.w@ == rat_add(self.w@, s@),
    {
        Vec4 { x: self.x.add(s), y: self.y.add(s), z: self.z.add(s), w: self.w.add(s) }
    }

    /// Broadcast difference: `s` subtracted from every component.
    pub fn sub_s(self, s: Scal) -> (r: Vec4)
        requires
            vec4_wf(self),
            s.wf(),
            add_fits(self.x@, s@),
            add_fits(self.y@, s@),
            add_fits(self.z@, s@),
            add_fits(self.w@, s@),
        ensures
            vec4_wf(r),
            r.x@ == rat_sub(self.x@, s@),
            r.y@ == rat_sub(self.y@, s@),
            r.z@ == rat_sub(self.z@, s@),
            r.w@ == rat_sub(self.w@, s@),
    {
        Vec4 { x: self.x.sub(s), y: self.y.sub(s), z: self.z.sub(s), w: self.w.sub(s) }
    }

    /// Broadcast product: every component scaled by `s`.
    pub fn mul_s(self, s: Scal) -> (r: Vec4)
        requires
            vec4_wf(self),
            s.wf(),
            mul_fits(self.x@, s@),
            mul_fits(self.y@, s@),
            mul_fits(self.z@, s@),
            mul_fits(self.w@, s@),
        ensures
            vec4_wf(r),
            r.x@ == rat_mul(self.x@, s@),
            r.y@ == rat_mul(self.y@, s@),
            r.z@ == rat_mul(self.z@, s@),
            r.w@ == rat_mul(self.w@, s@),
    {
        Vec4 { x: self.x.mul(s), y: self.y.mul(s), z: self.z.mul(s), w: self.w.mul(s) }
    }

    /// Broadcast quotient: every component divided by a nonzero `s`.
    pub fn div_s(self, s: Scal) -> (r: Vec4)
        requires
            vec4_wf(self),
            s.wf(),
            s@.n != 0,
            div_fits(self.x@, s@),
            div_fits(self.y@, s@),
            div_fits(self.z@, s@),
            div_fits(self.w@, s@),
        ensures
            vec4_wf(r),
            r.x@ == rat_div(self.x@, s@),
            r.y@ == rat_div(self.y@, s@),
            r.z@ == rat_div(self.z@, s@),
            r.w@ == rat_div(self.w@, s@),
    {
        Vec4 { x: self.x.div(s), y: self.y.div(s), z: self.z.div(s), w: self.w.div(s) }
    }

    /// Negation of every component.
    pub fn neg(self) -> (r: Vec4)
        requires
            vec4_wf(self),
            fits(-self.x@.n),
            fits(-self.y@.n),
            fits(-self.z@.n),
            fits(-self.w@.n),
        ensures
            vec4_wf(r),
            r.x@ == rat_neg(self.x@),
            r.y@ == rat_neg(self.y@),
            r.z@ == rat_neg(self.z@),
            r.w@ == rat_neg(self.w@),
    {
        Vec4 { x: self.x.neg(), y: self.y.neg(), z: self.z.neg(), w: self.w.neg() }
    }

    /// Dot product: `x*o.x + y*o.y + z*o.z + w*o.w`.
    pub fn dot(self, o: Vec4) -> (r: Scal)
        requires
            vec4_wf(self),
            vec4_wf(o),
            vec4_in(self, 0x8000),
            vec4_in(o, 0x8000),
        ensures
            r.wf(),
            r@ == rat_add(
                rat_add(
                    rat_add(rat_mul(self.x@, o.x@), rat_mul(self.y@, o.y@)),
                    rat_mul(self.z@, o.z@),
                ),
                rat_mul(self.w@, o.w@),
            ),
    {
        proof {
            lemma_mul_in(self.x@, o.x@, 0x8000, 0x8000);
            lemma_mul_in(self.y@, o.y@, 0x8000, 0x8000);
            lemma_mul_in(self.z@, o.z@, 0x8000, 0x8000);
            lemma_mul_in(self.w@, o.w@, 0x8000, 0x8000);
            lemma_add_in(
                rat_mul(self.x@, o.x@),
                rat_mul(self.y@, o.y@),
                0x4000_0000,
                0x4000_0000,
            );
            lemma_add_in(
                rat_add(rat_mul(self.x@, o.x@), rat_mul(self.y@, o.y@)),
                rat_mul(self.z@, o.z@),
                0x2000_0000_0000_0000,
                0x4000_0000,
            );
            lemma_add_in(
                rat_add(
                    rat_add(rat_mul(self.x@, o.x@), rat_mul(self.y@, o.y@)),
                    rat_mul(self.z@, o.z@),
                ),
                rat_mul(self.w@, o.w@),
                0x1000_0000_0000_0000_0000_0000,
                0x4000_0000,
            );
        }
        self.x.mul(o.x).add(self.y.mul(o.y)).add(self.z.mul(o.z)).add(self.w.mul(o.w))
    }

    /// Componentwise linear interpolation, with the library's one lerp
    /// convention `(1 - t) * a + t * b` (see [`crate::util::lerp`]).
    pub fn lerp(self, o: Vec4, t: Scal) -> (r: Vec4)
        requires
            vec4_wf(self),
            vec4_wf(o),
            t.wf(),
            vec4_in(self, 0x4000_0000),
            vec4_in(o, 0x4000_0000),
            rat_in(t@, 0x4000_0000),
        ensures
            vec4_wf(r),
            r.x@ == crate::util::spec_lerp(self.x@, o.x@, t@),
            r.y@ == crate::util::spec_lerp(self.y@, o.y@, t@),
            r.z@ == crate::util::spec_lerp(self.z@, o.z@, t@),
            r.w@ == crate::util::spec_lerp(self.w@, o.w@, t@),
    {
        Vec4 {
            x: crate::util::lerp(self.x, o.x, t),
            y: crate::util::lerp(self.y, o.y, t),
            z: crate::util::lerp(self.z, o.z, t),
            w: crate::util::lerp(self.w, o.w, t),
        }
    }

    /// Componentwise floor.
    pub fn floor(self) -> (r: Vec4)
        requires
            vec4_wf(self),
            i128::MIN < self.x.n,
            i128::MIN < self.y.n,
            i128::MIN < self.z.n,
            i128::MIN < self.w.n,
        ensures
            vec4_wf(r),
            r.x.d == 1 && r.x.n == rat_floor(self.x@),
            r.y.d == 1 && r.y.n == rat_floor(self.y@),
            r.z.d == 1 && r.z.n == rat_floor(self.z@),
            r.w.d == 1 && r.w.n == rat_floor(self.w@),
    {
        Vec4 { x: self.x.floor(), y: self.y.floor(), z: self.z.floor(), w: self.w.floor() }
    }

    /// Componentwise ceiling.
    pub fn ceil(self) -> (r: Vec4)
        requires
            vec4_wf(self),
            i128::MIN < self.x.n,
            i128::MIN < self.y.n,
            i128::MIN < self.z.n,
            i128::MIN < self.w.n,
            fits(self.x@.n + self.x@.d),
            fits(self.y@.n + self.y@.d),
            fits(self.z@.n + self.z@.d),
            fits(self.w@.n + self.w@.d),
        ensures
            vec4_wf(r),
            r.x.d == 1 && r.x.n == rat_ceil(self.x@),
            r.y.d == 1 && r.y.n == rat_ceil(self.y@),
            r.z.d == 1 && r.z.n == rat_ceil(self.z@),
            r.w.d == 1 && r.w.n == rat_ceil(self.w@),
    {
        Vec4 { x: self.x.ceil(), y: self.y.ceil(), z: self.z.ceil(), w: self.w.ceil() }
    }

    /// HSV to RGB. `(x, y, z, w)` is read as `(hue, saturation, value, alpha)`;
    /// the hue is reduced to `[0, 360)` first (so any hue, negative included,
    /// is accepted), the sector index is therefore always in `[0, 5]`, and the
    /// alpha passes through unchanged.
    pub fn hsv_to_rgb(self) -> (r: Vec4)
        requires
            vec4_wf(self),
            rat_in(self.x@, 0x100_0000_0000),
            rat_in(self.y@, 0x10_0000),
            rat_in(self.z@, 0x10_0000),
        ensures
            vec4_wf(r),
            (r.x@, r.y@, r.z@) == spec_hsv_rgb(self.x@, self.y@, self.z@),
            r.w == self.w,
    {
        let h = self.x;
        let s = self.y;
        let v = self.z;
        let c360 = scal_int(360);
        let c60 = scal_int(60);
        let one = scal_int(1);
        proof {
            lemma_div_in(h@, c360@, 0x100_0000_0000, 360);
        }
        let hq = h.div(c360);
        let fq = hq.floor();
        proof {
            // floor(h/360) differs from h/360 by less than one, so it is
            // bounded by the bound on the fraction h/360 (plus one).
            assert(-0x1_6800_0000_0001 <= fq.n <= 0x1_6800_0000_0001) by (nonlinear_arith)
                requires
                    rat_le(fq@, hq@),
                    rat_lt(hq@, rat_of_int(fq.n + 1)),
                    fq@.d == 1,
                    rat_in(hq@, 0x1_6800_0000_0000),
            ;
        }
        let ft = c360.mul(fq);
        proof {
            lemma_add_in(h@, ft@, 0x100_0000_0000, 0x400_0000_0000_0000);
        }
        let hm = h.sub(ft);
        proof {
            // 0 <= hm < 360 as a fraction over the original denominator.
            assert(0 <= hm.n && hm.n < 360 * hm.d && hm.d == h.d) by (nonlinear_arith)
                requires
                    hm@.n == h@.n * ft@.d - ft@.n * h@.d,
                    hm@.d == h@.d * ft@.d,
                    ft@.d == 1,
                    ft@.n == 360 * fq@.n,
                    rat_le(fq@, hq@),
                    rat_lt(hq@, rat_of_int(fq@.n + 1)),
                    fq@.d == 1,
                    hq@.n == h@.n * 1,
                    hq@.d == h@.d * 360,
                    h@.d >= 1,
            ;
            assert(rat_in(hm@, 0x2_0000_0000_0000));
            lemma_div_in(hm@, c60@, 0x2_0000_0000_0000, 60);
        }
        let hh = hm.div(c60);
        let fi = hh.floor();
        let i = fi.n;
        proof {
            assert(0 <= fi.n && fi.n <= 5) by (nonlinear_arith)
                requires
                    rat_le(fi@, hh@),
                    rat_lt(hh@, rat_of_int(fi.n + 1)),
                    fi@.d == 1,
                    hh@.n == hm@.n * 1,
                    hh@.d == hm@.d * 60,
                    0 <= hm@.n,
                    hm@.n < 360 * hm@.d,
                    hm@.d >= 1,
            ;
            lemma_add_in(hh@, fi@, 0x80_0000_0000_0000, 6);
        }
        let ff = hh.sub(fi);
        proof {
            // ff is bounded, so the chroma products below fit.
            lemma_mul_in(s@, ff@, 0x10_0000, 0x800_0000_0000_0000);
            lemma_add_in(one@, rat_mul(s@, ff@), 1, 0x8000_0000_0000_0000_0000);
            lemma_mul_in(
                v@,
                rat_sub(rat_one(), rat_mul(s@, ff@)),
                0x10_0000,
                0x1_0000_0000_0000_0000_0000,
            );
            lemma_add_in(one@, ff@, 1, 0x800_0000_0000_0000);
            lemma_mul_in(s@, rat_sub(rat_one(), ff@), 0x10_0000, 0x1000_0000_0000_0000);
            lemma_add_in(
                one@,
                rat_mul(s@, rat_sub(rat_one(), ff@)),
                1,
                0x1_0000_0000_0000_0000_0000,
            );
            lemma_mul_in(
                v@,
                rat_sub(rat_one(), rat_mul(s@, rat_sub(rat_one(), ff@))),
                0x10_0000,
                0x2_0000_0000_0000_0000_0000,
            );
            lemma_add_in(one@, s@, 1, 0x10_0000);
            lemma_mul_in(v@, rat_sub(rat_one(), s@), 0x10_0000, 0x20_0000);
        }
        let p = v.mul(one.sub(s));
        let q = v.mul(one.sub(s.mul(ff)));
        let t = v.mul(one.sub(s.mul(one.sub(ff))));
        if i == 0 {
            Vec4 { x: v, y: t, z: p, w: self.w }
        } else if i == 1 {
            Vec4 { x: q, y: v, z: p, w: self.w }
        } else if i == 2 {
            Vec4 { x: p, y: v, z: t, w: self.w }
        } else if i == 3 {
            Vec4 { x: p, y: q, z: v, w: self.w }
        } else if i == 4 {
            Vec4 { x: t, y: p, z: v, w: self.w }
        } else {
            Vec4 { x: v, y: p, z: q, w: self.w }
        }
    }
}

} // verus!
