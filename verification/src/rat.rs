//! Exact rational scalars: the number type every other module builds on.
//!
//! An executable scalar [`Scal`] is a fraction of two `i128`s with a positive
//! denominator. Its mathematical value is the ghost fraction [`Rat`] of
//! unbounded integers; all contracts are stated over `Rat`. Fractions are not
//! reduced, so two scalars can denote the same value with different fields;
//! [`Rat::equiv`] (cross-multiplication) is value equality, and every
//! operation states the exact fraction it returns.
//!
//! Machine limits are the only preconditions: each operation requires that
//! the integers it computes fit in an `i128`, stated by the `*_fits`
//! predicates, and the `lemma_*_in` lemmas discharge those requirements from
//! simple magnitude bounds ([`rat_in`]).

use vstd::prelude::*;
use vstd::arithmetic::div_mod::lemma_fundamental_div_mod;
use vstd::arithmetic::div_mod::lemma_fundamental_div_mod_converse;

verus! {

/// Mathematical value of a scalar: the fraction `n / d` over unbounded integers.
pub ghost struct Rat {
    pub n: int,
    pub d: int,
}

impl Rat {
    /// A fraction is well formed when its denominator is positive.
    pub open spec fn wf(self) -> bool {
        self.d >= 1
    }

    /// Value equality of fractions: equal cross products.
    pub open spec fn equiv(self, o: Rat) -> bool {
        self.n * o.d == o.n * self.d
    }
}

pub open spec fn rat_of_int(n: int) -> Rat {
    Rat { n: n, d: 1 }
}

pub open spec fn rat_zero() -> Rat {
    rat_of_int(0)
}

pub open spec fn rat_one() -> Rat {
    rat_of_int(1)
}

pub open spec fn rat_add(a: Rat, b: Rat) -> Rat {
    Rat { n: a.n * b.d + b.n * a.d, d: a.d * b.d }
}

pub open spec fn rat_sub(a: Rat, b: Rat) -> Rat {
    Rat { n: a.n * b.d - b.n * a.d, d: a.d * b.d }
}

pub open spec fn rat_mul(a: Rat, b: Rat) -> Rat {
    Rat { n: a.n * b.n, d: a.d * b.d }
}

/// Exact quotient `a / b`, with the sign moved into the numerator so that the
/// denominator stays positive. Meaningful only for `b.n != 0`.
pub open spec fn rat_div(a: Rat, b: Rat) -> Rat {
    if b.n >= 0 {
        Rat { n: a.n * b.d, d: a.d * b.n }
    } else {
        Rat { n: -(a.n * b.d), d: -(a.d * b.n) }
    }
}

pub open spec fn rat_neg(a: Rat) -> Rat {
    Rat { n: -a.n, d: a.d }
}

/// Order on fractions with positive denominators.
pub open spec fn rat_le(a: Rat, b: Rat) -> bool {
    a.n * b.d <= b.n * a.d
}

pub open spec fn rat_lt(a: Rat, b: Rat) -> bool {
    a.n * b.d < b.n * a.d
}

/// Greatest integer at most `a` (the denominator is positive, and `/` on
/// `int` rounds toward negative infinity for positive divisors).
pub open spec fn rat_floor(a: Rat) -> int {
    a.n / a.d
}

/// Least integer at least `a`.
pub open spec fn rat_ceil(a: Rat) -> int {
    (a.n + a.d - 1) / a.d
}

/// The range of an `i128`.
pub open spec fn fits(x: int) -> bool {
    -0x8000_0000_0000_0000_0000_0000_0000_0000 <= x
        <= 0x7fff_ffff_ffff_ffff_ffff_ffff_ffff_ffff
}

/// Magnitude bound on a well-formed fraction: `|n| <= b` and `1 <= d <= b`.
pub open spec fn rat_in(a: Rat, b: int) -> bool {
    -b <= a.n <= b && 1 <= a.d <= b
}

/// Every integer an addition or subtraction of `a` and `b` computes fits an `i128`.
pub open spec fn add_fits(a: Rat, b: Rat) -> bool {
    fits(a.n * b.d) && fits(b.n * a.d) && fits(a.n * b.d + b.n * a.d) && fits(a.n * b.d - b.n * a.d)
        && fits(a.d * b.d)
}

/// Every integer a multiplication of `a` and `b` computes fits an `i128`.
pub open spec fn mul_fits(a: Rat, b: Rat) -> bool {
    fits(a.n * b.n) && fits(a.d * b.d)
}

/// Every integer a division of `a` by `b` computes fits an `i128`.
pub open spec fn div_fits(a: Rat, b: Rat) -> bool {
    fits(a.n * b.d) && fits(a.d * b.n) && fits(-(a.n * b.d)) && fits(-(a.d * b.n))
}

/// The cross products compared by `le`, `lt` and `eq_val` fit an `i128`.
pub open spec fn cmp_fits(a: Rat, b: Rat) -> bool {
    fits(a.n * b.d) && fits(b.n * a.d)
}

/// An exact rational scalar: the value `n / d`. Fractions are not reduced;
/// `==` (derived) is equality of representations, `eq_val` is equality of
/// values.
#[derive(Clone, Copy, Debug, PartialEq, Eq, Structural)]
pub struct Scal {
    pub n: i128,
    pub d: i128,
}

impl View for Scal {
    type V = Rat;

    open spec fn view(&self) -> Rat {
        Rat { n: self.n as int, d: self.d as int }
    }
}

/// Scalar from a numerator and a nonzero denominator; the sign is normalised
/// into the numerator.
pub fn scal(n: i128, d: i128) -> (r: Scal)
    requires
        d != 0,
        d < 0 ==> i128::MIN < n && i128::MIN < d,
    ensures
        r.wf(),
        r@.equiv(Rat { n: n as int, d: d as int }),
        d > 0 ==> r == (Scal { n, d }),
{
    proof {
        assert((-n) * (d as int) == n * (-d)) by (nonlinear_arith);
        assert(n * (d as int) == n * (d as int));
    }
    if d > 0 {
        Scal { n, d }
    } else {
        Scal { n: -n, d: -d }
    }
}

/// Scalar holding the integer `n`.
pub fn scal_int(n: i128) -> (r: Scal)
    ensures
        r == (Scal { n, d: 1 }),
        r.wf(),
{
    Scal { n, d: 1 }
}

impl Scal {
    /// Well-formed: positive denominator.
    pub open spec fn wf(self) -> bool {
        self@.wf()
    }

    /// Exact sum: `r = self + o`.
    pub fn add(self, o: Scal) -> (r: Scal)
        requires
            self.wf(),
            o.wf(),
            add_fits(self@, o@),
        ensures
            r.wf(),
            r@ == rat_add(self@, o@),
    {
        proof {
            assert(self@.d * o@.d >= 1) by (nonlinear_arith)
                requires
                    self@.d >= 1,
                    o@.d >= 1,
            ;
        }
        Scal { n: self.n * o.d + o.n * self.d, d: self.d * o.d }
    }

    /// Exact difference: `r = self - o`.
    pub fn sub(self, o: Scal) -> (r: Scal)
        requires
            self.wf(),
            o.wf(),
            add_fits(self@, o@),
        ensures
            r.wf(),
            r@ == rat_sub(self@, o@),
    {
        proof {
            assert(self@.d * o@.d >= 1) by (nonlinear_arith)
                requires
                    self@.d >= 1,
                    o@.d >= 1,
            ;
        }
        Scal { n: self.n * o.d - o.n * self.d, d: self.d * o.d }
    }

    /// Exact product: `r = self * o`.
    pub fn mul(self, o: Scal) -> (r: Scal)
        requires
            self.wf(),
            o.wf(),
            mul_fits(self@, o@),
        ensures
            r.wf(),
            r@ == rat_mul(self@, o@),
    {
        proof {
            assert(self@.d * o@.d >= 1) by (nonlinear_arith)
                requires
                    self@.d >= 1,
                    o@.d >= 1,
            ;
        }
        Scal { n: self.n * o.n, d: self.d * o.d }
    }

    /// Exact quotient: `r = self / o`. A zero divisor is excluded by
    /// precondition; this library does not produce infinities.
    pub fn div(self, o: Scal) -> (r: Scal)
        requires
            self.wf(),
            o.wf(),
            o.n != 0,
            div_fits(self@, o@),
        ensures
            r.wf(),
            r@ == rat_div(self@, o@),
    {
        proof {
            assert(o@.n > 0 ==> self@.d * o@.n >= 1) by (nonlinear_arith)
                requires
                    self@.d >= 1,
            ;
            assert(o@.n < 0 ==> -(self@.d * o@.n) >= 1) by (nonlinear_arith)
                requires
                    self@.d >= 1,
            ;
        }
        if o.n > 0 {
            Scal { n: self.n * o.d, d: self.d * o.n }
        } else {
            Scal { n: -(self.n * o.d), d: -(self.d * o.n) }
        }
    }

    /// Exact negation.
    pub fn neg(self) -> (r: Scal)
        requires
            self.wf(),
            fits(-self@.n),
        ensures
            r.wf(),
            r@ == rat_neg(self@),
    {
        Scal { n: -self.n, d: self.d }
    }

    /// Value comparison: `self <= o`.
    pub fn le(self, o: Scal) -> (r: bool)
        requires
            self.wf(),
            o.wf(),
            cmp_fits(self@, o@),
        ensures
            r == rat_le(self@, o@),
    {
        self.n * o.d <= o.n * self.d
    }

    /// Value comparison: `self < o`.
    pub fn lt(self, o: Scal) -> (r: bool)
        requires
            self.wf(),
            o.wf(),
            cmp_fits(self@, o@),
        ensures
            r == rat_lt(self@, o@),
    {
        self.n * o.d < o.n * self.d
    }

    /// Value equality: true iff the two fractions denote the same number.
    pub fn eq_val(self, o: Scal) -> (r: bool)
        requires
            self.wf(),
            o.wf(),
            cmp_fits(self@, o@),
        ensures
            r == self@.equiv(o@),
    {
        self.n * o.d == o.n * self.d
    }

    /// The smaller of the two values (`self` on ties).
    pub fn min(self, o: Scal) -> (r: Scal)
        requires
            self.wf(),
            o.wf(),
            cmp_fits(self@, o@),
        ensures
            r == if rat_le(self@, o@) { self } else { o },
    {
        if self.le(o) { self } else { o }
    }

    /// The larger of the two values (`self` on ties).
    pub fn max(self, o: Scal) -> (r: Scal)
        requires
            self.wf(),
            o.wf(),
            cmp_fits(self@, o@),
        ensures
            r == if rat_le(o@, self@) { self } else { o },
    {
        if o.le(self) { self } else { o }
    }

    /// Greatest integer at most `self`, as a scalar with denominator 1.
    pub fn floor(self) -> (r: Scal)
        requires
            self.wf(),
            i128::MIN < self.n,
        ensures
            r.wf(),
            r.d == 1,
            r.n == rat_floor(self@),
            rat_le(r@, self@),
            rat_lt(self@, rat_of_int(r.n + 1)),
    {
        let q = floor_div(self.n, self.d);
        proof {
            lemma_fundamental_div_mod(self.n as int, self.d as int);
            vstd::arithmetic::div_mod::lemma_mod_bound(self.n as int, self.d as int);
            assert(rat_le(Rat { n: q as int, d: 1 }, self@) && self@.n < (q + 1) * self@.d)
                by (nonlinear_arith)
                requires
                    self@.d >= 1,
                    q == self@.n / self@.d,
                    self@.n == self@.d * (self@.n / self@.d) + self@.n % self@.d,
                    0 <= self@.n % self@.d < self@.d,
            ;
        }
        Scal { n: q, d: 1 }
    }

    /// Least integer at least `self`, as a scalar with denominator 1.
    pub fn ceil(self) -> (r: Scal)
        requires
            self.wf(),
            i128::MIN < self.n,
            fits(self@.n + self@.d),
        ensures
            r.wf(),
            r.d == 1,
            r.n == rat_ceil(self@),
            rat_le(self@, r@),
            rat_lt(rat_of_int(r.n - 1), self@),
    {
        let m = self.n + self.d - 1;
        let q = floor_div(m, self.d);
        proof {
            lemma_fundamental_div_mod(m as int, self.d as int);
            vstd::arithmetic::div_mod::lemma_mod_bound(m as int, self.d as int);
            assert(rat_le(self@, Rat { n: q as int, d: 1 }) && (q - 1) * self@.d < self@.n)
                by (nonlinear_arith)
                requires
                    self@.d >= 1,
                    m == self@.n + self@.d - 1,
                    q == m as int / self@.d,
                    m as int == self@.d * (m as int / self@.d) + m as int % self@.d,
                    0 <= m as int % self@.d < self@.d,
            ;
        }
        Scal { n: q, d: 1 }
    }
}

/// Quotient of `n` by a positive `d`, rounded toward negative infinity
/// (which is what `/` on `int` means for positive divisors).
fn floor_div(n: i128, d: i128) -> (r: i128)
    requires
        1 <= d,
        i128::MIN < n,
    ensures
        r == n as int / d as int,
{
    if n >= 0 {
        let q = ((n as u128) / (d as u128)) as i128;
        proof {
            assert(q == n as int / d as int);
        }
        q
    } else {
        // floor(n / d) == -ceil(-n / d) and ceil(m / d) == floor((m + d - 1) / d).
        let m = (-n) as u128;
        let du = d as u128;
        let q0 = (m + du - 1) / du;
        proof {
            lemma_fundamental_div_mod((m + du - 1) as int, du as int);
            vstd::arithmetic::div_mod::lemma_mod_bound((m + du - 1) as int, du as int);
            let qq = (m + du - 1) as int / du as int;
            let rr = (m + du - 1) as int % du as int;
            // -m == (-qq) * d + (d - 1 - rr), with the remainder in [0, d).
            assert(-(m as int) == (-qq) * (du as int) + (du - 1 - rr)) by (nonlinear_arith)
                requires
                    (m + du - 1) as int == du as int * qq + rr,
            ;
            lemma_fundamental_div_mod_converse(
                -(m as int),
                du as int,
                -qq,
                du as int - 1 - rr,
            );
            // q0 <= m, so the casts and the negation stay in range.
            assert(qq * (du as int) <= m + du - 1) by (nonlinear_arith)
                requires
                    (m + du - 1) as int == du as int * qq + rr,
                    rr >= 0,
            ;
            assert(qq <= m as int) by (nonlinear_arith)
                requires
                    qq * (du as int) <= m + du - 1,
                    du as int >= 1,
                    qq >= 0,
            ;
        }
        -(q0 as i128)
    }
}

/// Sum and difference of fractions bounded by `j` and `k` fit when `2*j*k`
/// fits, and are bounded by `2*j*k`.
pub proof fn lemma_add_in(a: Rat, b: Rat, j: int, k: int)
    by (nonlinear_arith)
    requires
        rat_in(a, j),
        rat_in(b, k),
        1 <= j,
        1 <= k,
        fits(2 * j * k),
    ensures
        add_fits(a, b),
        rat_in(rat_add(a, b), 2 * j * k),
        rat_in(rat_sub(a, b), 2 * j * k),
{
}

/// Product of fractions bounded by `j` and `k` fits when `j*k` fits, and is
/// bounded by `j*k`.
pub proof fn lemma_mul_in(a: Rat, b: Rat, j: int, k: int)
    by (nonlinear_arith)
    requires
        rat_in(a, j),
        rat_in(b, k),
        1 <= j,
        1 <= k,
        fits(j * k),
    ensures
        mul_fits(a, b),
        rat_in(rat_mul(a, b), j * k),
{
}

/// Quotient of fractions bounded by `j` and `k` fits when `j*k` fits, and is
/// bounded by `j*k`.
pub proof fn lemma_div_in(a: Rat, b: Rat, j: int, k: int)
    by (nonlinear_arith)
    requires
        rat_in(a, j),
        rat_in(b, k),
        b.n != 0,
        1 <= j,
        1 <= k,
        fits(j * k),
    ensures
        div_fits(a, b),
        cmp_fits(a, b),
        rat_in(rat_div(a, b), j * k),
{
}

/// Comparisons of fractions bounded by `j` and `k` fit when `j*k` fits.
pub proof fn lemma_cmp_in(a: Rat, b: Rat, j: int, k: int)
    by (nonlinear_arith)
    requires
        rat_in(a, j),
        rat_in(b, k),
        1 <= j,
        1 <= k,
        fits(j * k),
    ensures
        cmp_fits(a, b),
{
}


/// Product bound: `|x| <= bx` and `|y| <= by` give `|x * y| <= bx * by`.
pub proof fn lemma_mul_bound(x: int, y: int, bx: int, by: int)
    by (nonlinear_arith)
    requires
        -bx <= x <= bx,
        -by <= y <= by,
        0 <= bx,
        0 <= by,
    ensures
        -(bx * by) <= x * y <= bx * by,
{
}

} // verus!
