//! Axis-aligned rectangles over exact rational scalars.
//!
//! A rectangle is an origin (`xy`) and a size (`wh`). The module offers the
//! corner accessors, inclusive containment, the unit-square/world coordinate
//! maps, uniform and weighted grid partitioning, and aspect-ratio fitting,
//! each with an exact contract, together with the proved round-trip law for
//! the coordinate maps.

use vstd::prelude::*;
use crate::rat::Rat;
use crate::rat::Scal;
use crate::rat::scal_int;
use crate::rat::rat_add;
use crate::rat::rat_sub;
use crate::rat::rat_mul;
use crate::rat::rat_div;
use crate::rat::rat_zero;
use crate::rat::rat_one;
use crate::rat::rat_of_int;
use crate::rat::rat_le;
use crate::rat::rat_lt;
use crate::rat::rat_in;
use crate::rat::add_fits;
use crate::rat::lemma_add_in;
use crate::rat::lemma_mul_in;
use crate::rat::lemma_div_in;
use crate::rat::lemma_cmp_in;
use crate::vec2::Vec2;
use crate::vec2::vec2;
use crate::vec2::vec2_wf;
use crate::vec2::vec2_in;

verus! {

/// An axis-aligned rectangle: origin `xy` and size `wh`.
#[derive(Clone, Copy, Debug, PartialEq, Eq, Structural)]
pub struct Rect {
    pub xy: Vec2,
    pub wh: Vec2,
}

/// Both corners of the representation are well formed.
pub open spec fn rect_wf(r: Rect) -> bool {
    vec2_wf(r.xy) && vec2_wf(r.wh)
}

/// All four scalars of the rectangle are bounded by `b`.
pub open spec fn rect_in(r: Rect, b: int) -> bool {
    vec2_in(r.xy, b) && vec2_in(r.wh, b)
}

/// Rect from four scalars.
pub fn rect(x: Scal, y: Scal, w: Scal, h: Scal) -> (r: Rect)
    ensures
        r == (Rect { xy: Vec2 { x, y }, wh: Vec2 { x: w, y: h } }),
{
    Rect { xy: Vec2 { x, y }, wh: Vec2 { x: w, y: h } }
}

/// Rect from origin and size vectors.
pub fn rectv(xy: Vec2, wh: Vec2) -> (r: Rect)
    ensures
        r == (Rect { xy, wh }),
{
    Rect { xy, wh }
}

/// Rect of size `wh` centred on `xy`: the origin is `xy - wh/2`.
pub fn rectc(xy: Vec2, wh: Vec2) -> (r: Rect)
    requires
        vec2_wf(xy),
        vec2_wf(wh),
        vec2_in(xy, 0x1000_0000_0000_0000),
        vec2_in(wh, 0x1000_0000_0000_0000),
    ensures
        rect_wf(r),
        r.xy.x@ == rat_sub(xy.x@, rat_div(wh.x@, rat_of_int(2))),
        r.xy.y@ == rat_sub(xy.y@, rat_div(wh.y@, rat_of_int(2))),
        r.wh == wh,
{
    let two = scal_int(2);
    proof {
        lemma_div_in(wh.x@, two@, 0x1000_0000_0000_0000, 2);
        lemma_div_in(wh.y@, two@, 0x1000_0000_0000_0000, 2);
        lemma_add_in(xy.x@, rat_div(wh.x@, two@), 0x1000_0000_0000_0000, 0x2000_0000_0000_0000);
        lemma_add_in(xy.y@, rat_div(wh.y@, two@), 0x1000_0000_0000_0000, 0x2000_0000_0000_0000);
    }
    Rect { xy: xy.sub(wh.div_s(two)), wh }
}

/// World-space image of the unit-square point `p` on one axis:
/// `origin + p * size`.
pub open spec fn rtw_axis(o: Rat, w: Rat, p: Rat) -> Rat {
    rat_add(o, rat_mul(p, w))
}

/// Unit-square preimage of the world point `q` on one axis:
/// `(q - origin) / size`.
pub open spec fn wtr_axis(o: Rat, w: Rat, q: Rat) -> Rat {
    rat_div(rat_sub(q, o), w)
}

impl Rect {
    /// The horizontal edge vector `(wh.x, 0)`.
    pub fn i(&self) -> (r: Vec2)
        ensures
            r.x == self.wh.x,
            r.y == (Scal { n: 0, d: 1 }),
    {
        Vec2 { x: self.wh.x, y: scal_int(0) }
    }

    /// The vertical edge vector `(0, wh.y)`.
    pub fn j(&self) -> (r: Vec2)
        ensures
            r.x == (Scal { n: 0, d: 1 }),
            r.y == self.wh.y,
    {
        Vec2 { x: scal_int(0), y: self.wh.y }
    }

    /// Top-left corner: the origin itself.
    pub fn tl(&self) -> (r: Vec2)
        ensures
            r == self.xy,
    {
        self.xy
    }

    /// Top-right corner: `xy + (wh.x, 0)`.
    pub fn tr(&self) -> (r: Vec2)
        requires
            rect_wf(*self),
            add_fits(self.xy.x@, self.wh.x@),
        ensures
            vec2_wf(r),
            r.x@ == rat_add(self.xy.x@, self.wh.x@),
            r.y@ == rat_add(self.xy.y@, rat_zero()),
    {
        self.xy.add(self.i())
    }

    /// Bottom-left corner: `xy + (0, wh.y)`.
    pub fn bl(&self) -> (r: Vec2)
        requires
            rect_wf(*self),
            add_fits(self.xy.y@, self.wh.y@),
        ensures
            vec2_wf(r),
            r.x@ == rat_add(self.xy.x@, rat_zero()),
            r.y@ == rat_add(self.xy.y@, self.wh.y@),
    {
        self.xy.add(self.j())
    }

    /// Bottom-right corner: `xy + wh`.
    pub fn br(&self) -> (r: Vec2)
        requires
            rect_wf(*self),
            add_fits(self.xy.x@, self.wh.x@),
            add_fits(self.xy.y@, self.wh.y@),
        ensures
            vec2_wf(r),
            r.x@ == rat_add(self.xy.x@, self.wh.x@),
            r.y@ == rat_add(self.xy.y@, self.wh.y@),
    {
        self.xy.add(self.wh)
    }

    /// Inclusive containment: `p` lies in `[xy.x, xy.x+wh.x] x [xy.y, xy.y+wh.y]`,
    /// both ends included on both axes.
    pub fn contains(&self, p: Vec2) -> (r: bool)
        requires
            rect_wf(*self),
            vec2_wf(p),
            rect_in(*self, 0x100_0000_0000),
            vec2_in(p, 0x100_0000_0000),
        ensures
            r == (rat_le(rat_zero(), rat_sub(p.x@, self.xy.x@)) && rat_le(
                rat_sub(p.x@, self.xy.x@),
                self.wh.x@,
            ) && rat_le(rat_zero(), rat_sub(p.y@, self.xy.y@)) && rat_le(
                rat_sub(p.y@, self.xy.y@),
                self.wh.y@,
            )),
    {
        proof {
            lemma_add_in(p.x@, self.xy.x@, 0x100_0000_0000, 0x100_0000_0000);
            lemma_add_in(p.y@, self.xy.y@, 0x100_0000_0000, 0x100_0000_0000);
            lemma_cmp_in(
                rat_sub(p.x@, self.xy.x@),
                self.wh.x@,
                0x2_0000_0000_0000_0000_0000,
                0x100_0000_0000,
            );
            lemma_cmp_in(
                rat_sub(p.y@, self.xy.y@),
                self.wh.y@,
                0x2_0000_0000_0000_0000_0000,
                0x100_0000_0000,
            );
        }
        let zero = scal_int(0);
        let q = p.sub(self.xy);
        zero.le(q.x) && q.x.le(self.wh.x) && zero.le(q.y) && q.y.le(self.wh.y)
    }

    /// Map a unit-square coordinate to world space: `xy + p * wh`, on each
    /// axis [`rtw_axis`]. Not clamped: `p` outside `[0, 1]` extrapolates.
    pub fn rect_to_world(&self, p: Vec2) -> (r: Vec2)
        requires
            rect_wf(*self),
            vec2_wf(p),
            rect_in(*self, 0x100_0000_0000),
            vec2_in(p, 0x100_0000_0000),
        ensures
            vec2_wf(r),
            r.x@ == rtw_axis(self.xy.x@, self.wh.x@, p.x@),
            r.y@ == rtw_axis(self.xy.y@, self.wh.y@, p.y@),
    {
        proof {
            lemma_mul_in(p.x@, self.wh.x@, 0x100_0000_0000, 0x100_0000_0000);
            lemma_mul_in(p.y@, self.wh.y@, 0x100_0000_0000, 0x100_0000_0000);
            lemma_add_in(
                self.xy.x@,
                rat_mul(p.x@, self.wh.x@),
                0x100_0000_0000,
                0x1_0000_0000_0000_0000_0000,
            );
            lemma_add_in(
                self.xy.y@,
                rat_mul(p.y@, self.wh.y@),
                0x100_0000_0000,
                0x1_0000_0000_0000_0000_0000,
            );
        }
        self.xy.add(p.mul(self.wh))
    }

    /// Map a world point back to unit-square coordinates: `(p - xy) / wh`, on
    /// each axis [`wtr_axis`]. A size with a zero component is excluded by
    /// precondition; this library does not produce infinities.
    pub fn world_to_rect(&self, p: Vec2) -> (r: Vec2)
        requires
            rect_wf(*self),
            vec2_wf(p),
            self.wh.x@.n != 0,
            self.wh.y@.n != 0,
            rect_in(*self, 0x100_0000_0000),
            vec2_in(p, 0x100_0000_0000),
        ensures
            vec2_wf(r),
            r.x@ == wtr_axis(self.xy.x@, self.wh.x@, p.x@),
            r.y@ == wtr_axis(self.xy.y@, self.wh.y@, p.y@),
    {
        proof {
            lemma_add_in(p.x@, self.xy.x@, 0x100_0000_0000, 0x100_0000_0000);
            lemma_add_in(p.y@, self.xy.y@, 0x100_0000_0000, 0x100_0000_0000);
            lemma_div_in(
                rat_sub(p.x@, self.xy.x@),
                self.wh.x@,
                0x2_0000_0000_0000_0000_0000,
                0x100_0000_0000,
            );
            lemma_div_in(
                rat_sub(p.y@, self.xy.y@),
                self.wh.y@,
                0x2_0000_0000_0000_0000_0000,
                0x100_0000_0000,
            );
        }
        p.sub(self.xy).div(self.wh)
    }

    /// The cell `(i, j)` of the uniform `w x h` grid over this rect. The cell
    /// size is `wh / (w, h)` and the origin is `xy + (i, j) * cellsize`.
    /// Indices out of `[0, w) x [0, h)` extrapolate rather than fail.
    pub fn uniform_grid(&self, i: usize, j: usize, w: usize, h: usize) -> (r: Rect)
        requires
            rect_wf(*self),
            rect_in(*self, 0x100_0000_0000),
            1 <= w <= 0x1_0000,
            1 <= h <= 0x1_0000,
            i <= 0x1_0000,
            j <= 0x1_0000,
        ensures
            rect_wf(r),
            r.wh.x@ == rat_div(self.wh.x@, rat_of_int(w as int)),
            r.wh.y@ == rat_div(self.wh.y@, rat_of_int(h as int)),
            r.xy.x@ == rat_add(
                self.xy.x@,
                rat_mul(rat_of_int(i as int), rat_div(self.wh.x@, rat_of_int(w as int))),
            ),
            r.xy.y@ == rat_add(
                self.xy.y@,
                rat_mul(rat_of_int(j as int), rat_div(self.wh.y@, rat_of_int(h as int))),
            ),
    {
        let ws = scal_int(w as i128);
        let hs = scal_int(h as i128);
        let is = scal_int(i as i128);
        let js = scal_int(j as i128);
        proof {
            lemma_div_in(self.wh.x@, ws@, 0x100_0000_0000, 0x1_0000);
            lemma_div_in(self.wh.y@, hs@, 0x100_0000_0000, 0x1_0000);
            lemma_mul_in(is@, rat_div(self.wh.x@, ws@), 0x1_0000, 0x100_0000_0000_0000);
            lemma_mul_in(js@, rat_div(self.wh.y@, hs@), 0x1_0000, 0x100_0000_0000_0000);
            lemma_add_in(
                self.xy.x@,
                rat_mul(is@, rat_div(self.wh.x@, ws@)),
                0x100_0000_0000,
                0x1_0000_0000_0000_0000_0000,
            );
            lemma_add_in(
                self.xy.y@,
                rat_mul(js@, rat_div(self.wh.y@, hs@)),
                0x100_0000_0000,
                0x1_0000_0000_0000_0000_0000,
            );
        }
        let v = self.wh.div(vec2(ws, hs));
        Rect { xy: self.xy.add(vec2(is, js).mul(v)), wh: v }
    }

    /// The cell `(i, j)` of the weighted grid over this rect.
    ///
    /// Each axis offset is the sum of the weights before the index, and each
    /// cell extent is the weight at the index, normalised and scaled by the
    /// parent size. Note the normalisation: both axes are divided by the
    /// total of `widths` — the vertical axis, too, is measured against the
    /// width total, not the height total. Callers that want height weights
    /// normalised by their own sum must scale them to the width total.
    pub fn grid(&self, i: usize, j: usize, widths: &Vec<Scal>, heights: &Vec<Scal>) -> (r: Rect)
        requires
            rect_wf(*self),
            rect_in(*self, 0x1000),
            i < widths.len(),
            j < heights.len(),
            widths@.len() <= 0x8_0000,
            heights@.len() <= 0x8_0000,
            forall|t: int| 0 <= t < widths@.len() ==> widths@[t].wf() && rat_in(widths@[t]@, 0x1000),
            forall|t: int|
                0 <= t < heights@.len() ==> heights@[t].wf() && rat_in(heights@[t]@, 0x1000),
            den_prod(widths@, widths@.len() as int) <= 0x1_0000_0000,
            den_prod(heights@, heights@.len() as int) <= 0x1_0000_0000,
            rat_sum(widths@, widths@.len() as int).n != 0,
        ensures
            rect_wf(r),
            r.xy.x@ == rat_add(
                rat_mul(
                    rat_div(rat_sum(widths@, i as int), rat_sum(widths@, widths@.len() as int)),
                    self.wh.x@,
                ),
                self.xy.x@,
            ),
            r.xy.y@ == rat_add(
                rat_mul(
                    rat_div(rat_sum(heights@, j as int), rat_sum(widths@, widths@.len() as int)),
                    self.wh.y@,
                ),
                self.xy.y@,
            ),
            r.wh.x@ == rat_mul(
                rat_div(widths@[i as int]@, rat_sum(widths@, widths@.len() as int)),
                self.wh.x@,
            ),
            r.wh.y@ == rat_mul(
                rat_div(heights@[j as int]@, rat_sum(widths@, widths@.len() as int)),
                self.wh.y@,
            ),
    {
        let sw = prefix_sum(widths, widths.len());
        let si = prefix_sum(widths, i);
        let sj = prefix_sum(heights, j);
        proof {
            lemma_sum_bounds(widths@, widths@.len() as int, 0x1000);
            lemma_sum_bounds(widths@, i as int, 0x1000);
            lemma_sum_bounds(heights@, j as int, 0x1000);
            lemma_den_mono(widths@, i as int, widths@.len() as int);
            lemma_den_mono(heights@, j as int, heights@.len() as int);
            // The prefix sums are bounded: numerators by len * weight * dens,
            // denominators by the denominator product.
            assert(rat_in(sw@, 0x8000_0000_0000_0000) && rat_in(si@, 0x8000_0000_0000_0000)
                && rat_in(sj@, 0x8000_0000_0000_0000)) by (nonlinear_arith)
                requires
                    sw@ == rat_sum(widths@, widths@.len() as int),
                    si@ == rat_sum(widths@, i as int),
                    sj@ == rat_sum(heights@, j as int),
                    sw@.d == den_prod(widths@, widths@.len() as int),
                    si@.d == den_prod(widths@, i as int),
                    sj@.d == den_prod(heights@, j as int),
                    1 <= si@.d <= den_prod(widths@, widths@.len() as int),
                    1 <= sj@.d <= den_prod(heights@, heights@.len() as int),
                    den_prod(widths@, widths@.len() as int) <= 0x1_0000_0000,
                    den_prod(heights@, heights@.len() as int) <= 0x1_0000_0000,
                    -(widths@.len() as int * 0x1000 * sw@.d) <= sw@.n <= widths@.len() as int
                        * 0x1000 * sw@.d,
                    -(i as int * 0x1000 * si@.d) <= si@.n <= i as int * 0x1000 * si@.d,
                    -(j as int * 0x1000 * sj@.d) <= sj@.n <= j as int * 0x1000 * sj@.d,
                    widths@.len() <= 0x8_0000,
                    i < widths@.len(),
                    j < heights@.len(),
                    heights@.len() <= 0x8_0000,
            ;
            lemma_div_in(si@, sw@, 0x8000_0000_0000_0000, 0x8000_0000_0000_0000);
            lemma_div_in(sj@, sw@, 0x8000_0000_0000_0000, 0x8000_0000_0000_0000);
            // Tighter bounds on the two quotients than lemma_div_in states,
            // so that the scaling by wh and the shift by xy fit.
            assert(rat_in(rat_div(si@, sw@), 0x8000_0000_0000_0000_0000_0000) && rat_in(
                rat_div(sj@, sw@),
                0x8000_0000_0000_0000_0000_0000,
            )) by (nonlinear_arith)
                requires
                    rat_in(si@, 0x8000_0000_0000_0000),
                    rat_in(sj@, 0x8000_0000_0000_0000),
                    rat_in(sw@, 0x8000_0000_0000_0000),
                    1 <= si@.d <= 0x1_0000_0000,
                    1 <= sj@.d <= 0x1_0000_0000,
                    1 <= sw@.d <= 0x1_0000_0000,
                    sw@.n != 0,
                    rat_div(si@, sw@).wf(),
                    rat_div(sj@, sw@).wf(),
            ;
            lemma_mul_in(
                rat_div(si@, sw@),
                self.wh.x@,
                0x8000_0000_0000_0000_0000_0000,
                0x1000,
            );
            lemma_mul_in(
                rat_div(sj@, sw@),
                self.wh.y@,
                0x8000_0000_0000_0000_0000_0000,
                0x1000,
            );
            lemma_add_in(
                rat_mul(rat_div(si@, sw@), self.wh.x@),
                self.xy.x@,
                0x800_0000_0000_0000_0000_0000_0000,
                0x1000,
            );
            lemma_add_in(
                rat_mul(rat_div(sj@, sw@), self.wh.y@),
                self.xy.y@,
                0x800_0000_0000_0000_0000_0000_0000,
                0x1000,
            );
            lemma_div_in(widths@[i as int]@, sw@, 0x1000, 0x8000_0000_0000_0000);
            lemma_div_in(heights@[j as int]@, sw@, 0x1000, 0x8000_0000_0000_0000);
            lemma_mul_in(
                rat_div(widths@[i as int]@, sw@),
                self.wh.x@,
                0x8000_0000_0000_0000_0000,
                0x1000,
            );
            lemma_mul_in(
                rat_div(heights@[j as int]@, sw@),
                self.wh.y@,
                0x8000_0000_0000_0000_0000,
                0x1000,
            );
        }
        let acc = vec2(si.div(sw), sj.div(sw)).mul(self.wh).add(self.xy);
        let wh = vec2(widths[i].div(sw), heights[j].div(sw)).mul(self.wh);
        Rect { xy: acc, wh }
    }

    /// The centred sub-rect of this rect's dimensions fitted to the aspect
    /// ratio `a` (width over height). A parent wider than `a` keeps its
    /// height and narrows, otherwise it keeps its width and shortens. The
    /// result is origin-relative: its offsets are measured from `(0, 0)`,
    /// not from `xy`.
    pub fn fit_aspect(&self, a: Scal) -> (r: Rect)
        requires
            rect_wf(*self),
            a.wf(),
            rect_in(*self, 0x4000_0000),
            rat_in(a@, 0x4000_0000),
            a@.n != 0,
            self.wh.y@.n != 0,
        ensures
            rect_wf(r),
            rat_lt(a@, rat_div(self.wh.x@, self.wh.y@)) ==> {
                &&& r.xy.x@ == rat_div(
                    rat_sub(self.wh.x@, rat_mul(self.wh.x@, rat_div(rat_one(), a@))),
                    rat_of_int(2),
                )
                &&& r.xy.y == (Scal { n: 0, d: 1 })
                &&& r.wh.x@ == rat_mul(self.wh.x@, rat_div(rat_one(), a@))
                &&& r.wh.y == self.wh.y
            },
            !rat_lt(a@, rat_div(self.wh.x@, self.wh.y@)) ==> {
                &&& r.xy.x == (Scal { n: 0, d: 1 })
                &&& r.xy.y@ == rat_div(
                    rat_sub(self.wh.y@, rat_mul(self.wh.y@, rat_div(rat_one(), a@))),
                    rat_of_int(2),
                )
                &&& r.wh.x == self.wh.x
                &&& r.wh.y@ == rat_div(self.wh.y@, a@)
            },
    {
        let one = scal_int(1);
        let two = scal_int(2);
        let zero = scal_int(0);
        proof {
            lemma_div_in(self.wh.x@, self.wh.y@, 0x4000_0000, 0x4000_0000);
            lemma_cmp_in(a@, rat_div(self.wh.x@, self.wh.y@), 0x4000_0000, 0x1000_0000_0000_0000);
            lemma_div_in(rat_one(), a@, 1, 0x4000_0000);
            lemma_mul_in(self.wh.x@, rat_div(rat_one(), a@), 0x4000_0000, 0x4000_0000);
            lemma_mul_in(self.wh.y@, rat_div(rat_one(), a@), 0x4000_0000, 0x4000_0000);
            lemma_add_in(
                self.wh.x@,
                rat_mul(self.wh.x@, rat_div(rat_one(), a@)),
                0x4000_0000,
                0x1000_0000_0000_0000,
            );
            lemma_add_in(
                self.wh.y@,
                rat_mul(self.wh.y@, rat_div(rat_one(), a@)),
                0x4000_0000,
                0x1000_0000_0000_0000,
            );
            lemma_div_in(
                rat_sub(self.wh.x@, rat_mul(self.wh.x@, rat_div(rat_one(), a@))),
                rat_of_int(2),
                0x2000_0000_0000_0000_0000_0000_0000,
                2,
            );
            lemma_div_in(
                rat_sub(self.wh.y@, rat_mul(self.wh.y@, rat_div(rat_one(), a@))),
                rat_of_int(2),
                0x2000_0000_0000_0000_0000_0000_0000,
                2,
            );
            lemma_div_in(self.wh.y@, a@, 0x4000_0000, 0x4000_0000);
        }
        let a_self = self.wh.x.div(self.wh.y);
        let inv_a = one.div(a);
        if a.lt(a_self) {
            // parent wider: keep the height, narrow the width
            let nw = self.wh.x.mul(inv_a);
            rect(self.wh.x.sub(nw).div(two), zero, nw, self.wh.y)
        } else {
            // parent taller or equal: keep the width, shorten the height
            let nh = self.wh.y.mul(inv_a);
            rect(zero, self.wh.y.sub(nh).div(two), self.wh.x, self.wh.y.div(a))
        }
    }
}

/// The fraction `s[0] + ... + s[k-1]`, folded left and unreduced.
pub open spec fn rat_sum(s: Seq<Scal>, k: int) -> Rat
    decreases k,
{
    if k <= 0 {
        rat_zero()
    } else {
        rat_add(rat_sum(s, k - 1), s[k - 1]@)
    }
}

/// The product of the denominators of `s[0] .. s[k-1]`, which is exactly the
/// denominator that the unreduced sum accumulates.
pub open spec fn den_prod(s: Seq<Scal>, k: int) -> int
    decreases k,
{
    if k <= 0 {
        1
    } else {
        den_prod(s, k - 1) * s[k - 1]@.d
    }
}

/// The denominator product grows with the prefix length.
proof fn lemma_den_mono(s: Seq<Scal>, j: int, k: int)
    requires
        0 <= j <= k <= s.len(),
        forall|t: int| 0 <= t < s.len() ==> s[t].wf(),
    ensures
        1 <= den_prod(s, j) <= den_prod(s, k),
    decreases k,
{
    if j == k {
        lemma_den_pos(s, j);
    } else {
        lemma_den_mono(s, j, k - 1);
        assert(s[k - 1].wf());
        assert(den_prod(s, k - 1) <= den_prod(s, k - 1) * s[k - 1]@.d) by (nonlinear_arith)
            requires
                1 <= den_prod(s, k - 1),
                1 <= s[k - 1]@.d,
        ;
    }
}

/// The denominator product of well-formed scalars is positive.
proof fn lemma_den_pos(s: Seq<Scal>, k: int)
    requires
        k <= s.len(),
        forall|t: int| 0 <= t < s.len() ==> s[t].wf(),
    ensures
        1 <= den_prod(s, k),
    decreases k,
{
    if k > 0 {
        lemma_den_pos(s, k - 1);
        assert(1 <= den_prod(s, k - 1) * s[k - 1]@.d) by (nonlinear_arith)
            requires
                1 <= den_prod(s, k - 1),
                1 <= s[k - 1]@.d,
        ;
    }
}

/// The unreduced prefix sum has denominator `den_prod` and a numerator
/// bounded by `k * b` times that denominator.
proof fn lemma_sum_bounds(s: Seq<Scal>, k: int, b: int)
    requires
        0 <= k <= s.len(),
        1 <= b,
        forall|t: int| 0 <= t < s.len() ==> s[t].wf() && rat_in(#[trigger] s[t]@, b),
    ensures
        rat_sum(s, k).wf(),
        rat_sum(s, k).d == den_prod(s, k),
        -(k * b * den_prod(s, k)) <= rat_sum(s, k).n <= k * b * den_prod(s, k),
    decreases k,
{
    lemma_den_pos(s, k);
    if k > 0 {
        lemma_sum_bounds(s, k - 1, b);
        lemma_den_pos(s, k - 1);
        assert(s[k - 1].wf() && rat_in(s[k - 1]@, b));
        assert({
            &&& -(k * b * (den_prod(s, k - 1) * s[k - 1]@.d)) <= rat_sum(s, k - 1).n * s[k
                - 1]@.d + s[k - 1]@.n * rat_sum(s, k - 1).d <= k * b * (den_prod(s, k - 1) * s[k
                - 1]@.d)
            &&& rat_sum(s, k - 1).d * s[k - 1]@.d == den_prod(s, k - 1) * s[k - 1]@.d
        }) by (nonlinear_arith)
            requires
                rat_sum(s, k - 1).d == den_prod(s, k - 1),
                1 <= den_prod(s, k - 1),
                1 <= s[k - 1]@.d <= b,
                -b <= s[k - 1]@.n <= b,
                -((k - 1) * b * den_prod(s, k - 1)) <= rat_sum(s, k - 1).n <= (k - 1) * b
                    * den_prod(s, k - 1),
                1 <= b,
                1 <= k,
        ;
    }
}

/// The fraction `s[0] + ... + s[k-1]`, computed left to right.
fn prefix_sum(s: &Vec<Scal>, k: usize) -> (r: Scal)
    requires
        k <= s.len(),
        s@.len() <= 0x8_0000,
        forall|t: int| 0 <= t < s@.len() ==> s@[t].wf() && rat_in(#[trigger] s@[t]@, 0x1000),
        den_prod(s@, s@.len() as int) <= 0x1_0000_0000,
    ensures
        r.wf(),
        r@ == rat_sum(s@, k as int),
{
    let mut acc = scal_int(0);
    let mut x: usize = 0;
    while x < k
        invariant
            x <= k <= s@.len(),
            s@.len() <= 0x8_0000,
            forall|t: int| 0 <= t < s@.len() ==> s@[t].wf() && rat_in(#[trigger] s@[t]@, 0x1000),
            den_prod(s@, s@.len() as int) <= 0x1_0000_0000,
            acc.wf(),
            acc@ == rat_sum(s@, x as int),
        decreases k - x,
    {
        proof {
            lemma_sum_bounds(s@, x as int, 0x1000);
            lemma_den_mono(s@, x as int + 1, s@.len() as int);
            lemma_den_mono(s@, x as int, x as int + 1);
            assert(add_fits(acc@, s@[x as int]@)) by (nonlinear_arith)
                requires
                    acc@.d == den_prod(s@, x as int),
                    -(x as int * 0x1000 * acc@.d) <= acc@.n <= x as int * 0x1000 * acc@.d,
                    1 <= acc@.d,
                    rat_in(s@[x as int]@, 0x1000),
                    acc@.d * s@[x as int]@.d == den_prod(s@, x as int + 1),
                    den_prod(s@, x as int + 1) <= 0x1_0000_0000,
                    x < s@.len() <= 0x8_0000,
            ;
        }
        acc = acc.add(s[x]);
        x += 1;
    }
    acc
}

/// Round trip of the coordinate maps on one axis: for any origin `o`, any
/// size `w` with nonzero numerator, and any point `p`, mapping `p` into the
/// world and back returns a fraction equal in value to `p`.
pub proof fn lemma_rect_round_trip_axis(o: Rat, w: Rat, p: Rat)
    requires
        o.wf(),
        w.wf(),
        p.wf(),
        w.n != 0,
    ensures
        wtr_axis(o, w, rtw_axis(o, w, p)).equiv(p),
{
    let qn = o.n * (p.d * w.d) + (p.n * w.n) * o.d;
    let qd = o.d * (p.d * w.d);
    let sn = qn * o.d - o.n * qd;
    let sd = qd * o.d;
    // The origin cancels out of the difference ...
    assert(sn == (p.n * w.n) * (o.d * o.d)) by (nonlinear_arith)
        requires
            qn == o.n * (p.d * w.d) + (p.n * w.n) * o.d,
            qd == o.d * (p.d * w.d),
            sn == qn * o.d - o.n * qd,
    ;
    // ... and the size cancels out of the quotient, either sign.
    assert((sn * w.d) * p.d == p.n * (sd * w.n)) by (nonlinear_arith)
        requires
            sn == (p.n * w.n) * (o.d * o.d),
            sd == qd * o.d,
            qd == o.d * (p.d * w.d),
    ;
    assert((-(sn * w.d)) * p.d == p.n * (-(sd * w.n))) by (nonlinear_arith)
        requires
            (sn * w.d) * p.d == p.n * (sd * w.n),
    ;
}

/// Round trip of the coordinate maps: for any rect whose size has nonzero
/// components and any point `p`, `world_to_rect(rect_to_world(p))` is a pair
/// of fractions equal in value to `p`. This holds for every `p`, the unit
/// square included; sizes with a zero component are the one exclusion.
pub proof fn lemma_rect_round_trip(r: Rect, p: Vec2)
    requires
        rect_wf(r),
        vec2_wf(p),
        r.wh.x@.n != 0,
        r.wh.y@.n != 0,
    ensures
        wtr_axis(r.xy.x@, r.wh.x@, rtw_axis(r.xy.x@, r.wh.x@, p.x@)).equiv(p.x@),
        wtr_axis(r.xy.y@, r.wh.y@, rtw_axis(r.xy.y@, r.wh.y@, p.y@)).equiv(p.y@),
{
    lemma_rect_round_trip_axis(r.xy.x@, r.wh.x@, p.x@);
    lemma_rect_round_trip_axis(r.xy.y@, r.wh.y@, p.y@);
}

} // verus!
