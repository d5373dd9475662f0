//! Scalar utilities.

use vstd::prelude::*;
use crate::rat::Rat;
use crate::rat::Scal;
use crate::rat::scal_int;
use crate::rat::rat_one;
use crate::rat::rat_add;
use crate::rat::rat_sub;
use crate::rat::rat_mul;
use crate::rat::rat_in;
use crate::rat::lemma_add_in;
use crate::rat::lemma_mul_in;

verus! {

/// Linear interpolation: `(1 - t) * a + t * b`. This is the one lerp
/// convention of the library: `t = 0` gives `a` and `t = 1` gives `b`.
pub open spec fn spec_lerp(a: Rat, b: Rat, t: Rat) -> Rat {
    rat_add(rat_mul(rat_sub(rat_one(), t), a), rat_mul(t, b))
}

/// Linear interpolation between `a` and `b` by `t`: exactly `(1 - t) * a + t * b`.
pub fn lerp(a: Scal, b: Scal, t: Scal) -> (r: Scal)
    requires
        a.wf(),
        b.wf(),
        t.wf(),
        rat_in(a@, 0x4000_0000),
        rat_in(b@, 0x4000_0000),
        rat_in(t@, 0x4000_0000),
    ensures
        r.wf(),
        r@ == spec_lerp(a@, b@, t@),
{
    let one = scal_int(1);
    proof {
        lemma_add_in(one@, t@, 1, 0x4000_0000);
    }
    let omt = one.sub(t);
    proof {
        lemma_mul_in(omt@, a@, 0x8000_0000, 0x4000_0000);
        lemma_mul_in(t@, b@, 0x4000_0000, 0x4000_0000);
        lemma_add_in(
            rat_mul(omt@, a@),
            rat_mul(t@, b@),
            0x2000_0000_0000_0000,
            0x1000_0000_0000_0000,
        );
    }
    omt.mul(a).add(t.mul(b))
}

} // verus!
