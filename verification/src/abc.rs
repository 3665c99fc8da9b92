//! Advection-based absorbing boundary conditions for a 1D grid.
//!
//! Each filter is an owned step hook holding its precomputed reflection
//! coefficients and the short history of boundary samples it needs; one
//! instance belongs to one simulation run and mutates only the two edge
//! cells of the electric field. The electric stencil updates every cell
//! from index 1 up to and including the rightmost one, so a filter is wired
//! as the post-electric hook: applied earlier, the stencil would overwrite
//! its right-edge value within the same step.

use vstd::prelude::*;
use crate::grid::{Grid, GridView};
use crate::num::{F_ZERO, F_ONE, F_TWO, add_bits, sub_bits, mul_bits, div_bits, sqrt_bits, neg_bits, f_add, f_sub, f_mul, f_div, f_sqrt, f_neg};
use crate::fdtd::StepHook;

verus! {

/// Bit pattern of 4.0.
pub const F_FOUR: u64 = 0x4010000000000000;

/// The 1st-order advection coefficient at one boundary:
/// `(sqrt(ce*ch) - 1) / (sqrt(ce*ch) + 1)` over the local material
/// coefficients.
pub open spec fn abc1_coef(ce: u64, ch: u64) -> u64 {
    let tmp = sqrt_bits(mul_bits(ce, ch));
    div_bits(sub_bits(tmp, F_ONE), add_bits(tmp, F_ONE))
}

/// A 1st-order advection absorbing boundary: one reflection coefficient and
/// one retained neighbour sample per boundary.
pub struct Abc1 {
    pub coef_left: u64,
    pub coef_right: u64,
    pub old_left: u64,
    pub old_right: u64,
}

/// Builds the 1st-order boundary filter from the electric and magnetic
/// cross coefficients local to the two boundaries.
pub fn advection_abc_1st_order(cezh: &Vec<u64>, chye: &Vec<u64>) -> (r: Abc1)
    requires
        cezh@.len() >= 2,
        chye@.len() == cezh@.len(),
    ensures
        r.coef_left == abc1_coef(cezh@[0], chye@[0]),
        r.coef_right == abc1_coef(cezh@[cezh@.len() - 1], chye@[cezh@.len() - 2]),
        r.old_left == F_ZERO,
        r.old_right == F_ZERO,
{
    let len = cezh.len();
    let tl = f_sqrt(f_mul(cezh[0], chye[0]));
    let coef_left = f_div(f_sub(tl, F_ONE), f_add(tl, F_ONE));
    let tr = f_sqrt(f_mul(cezh[len - 1], chye[len - 2]));
    let coef_right = f_div(f_sub(tr, F_ONE), f_add(tr, F_ONE));
    Abc1 { coef_left, coef_right, old_left: F_ZERO, old_right: F_ZERO }
}

/// One application of the 1st-order boundary: each edge cell becomes the
/// retained sample plus the coefficient times the inward difference, and the
/// neighbour's new value is retained for the next step.
pub open spec fn abc1_apply_spec(s: Abc1, g: GridView) -> (Abc1, GridView) {
    let end = g.x_sz as int;
    let e0 = add_bits(s.old_left, mul_bits(s.coef_left, sub_bits(g.ez[1], g.ez[0])));
    let ez1 = g.ez.update(0, e0);
    let er = add_bits(s.old_right, mul_bits(s.coef_right, sub_bits(ez1[end - 2], ez1[end - 1])));
    let ez2 = ez1.update(end - 1, er);
    (
        Abc1 { old_left: ez1[1], old_right: ez2[end - 2], ..s },
        GridView { ez: ez2, ..g },
    )
}

impl StepHook for Abc1 {
    open spec fn pre(self, t: nat, g: GridView) -> bool {
        g.ez.len() == g.x_sz && g.x_sz >= 2
    }

    open spec fn spec_apply(self, t: nat, g: GridView) -> (Self, GridView) {
        abc1_apply_spec(self, g)
    }

    proof fn shape_lemma(self, t: nat, g: GridView) {
        assert(abc1_apply_spec(self, g).1.same_shape(g));
    }

    fn apply(&mut self, t: usize, g: &mut Grid) {
        let end = g.x_sz;
        let e0 = f_add(self.old_left, f_mul(self.coef_left, f_sub(g.ez[1], g.ez[0])));
        g.ez[0] = e0;
        self.old_left = g.ez[1];
        let er = f_add(self.old_right, f_mul(self.coef_right, f_sub(g.ez[end - 2], g.ez[end - 1])));
        g.ez[end - 1] = er;
        self.old_right = g.ez[end - 2];
        proof {
            assert(g@ =~= abc1_apply_spec(*old(self), old(g)@).1);
        }
    }
}

/// The shared denominator of the 2nd-order coefficients:
/// `1/sqrt(ce*ch) + 2 + sqrt(ce*ch)`.
pub open spec fn abc2_tmp2(ce: u64, ch: u64) -> u64 {
    let tmp1 = sqrt_bits(mul_bits(ce, ch));
    add_bits(add_bits(div_bits(F_ONE, tmp1), F_TWO), tmp1)
}

/// The first 2nd-order advection coefficient:
/// `-(1/sqrt(ce*ch) - 2 + sqrt(ce*ch)) / tmp2`.
pub open spec fn abc2_coef0(ce: u64, ch: u64) -> u64 {
    let tmp1 = sqrt_bits(mul_bits(ce, ch));
    div_bits(neg_bits(add_bits(sub_bits(div_bits(F_ONE, tmp1), F_TWO), tmp1)), abc2_tmp2(ce, ch))
}

/// The second 2nd-order advection coefficient:
/// `-2 * (sqrt(ce*ch) - 1/sqrt(ce*ch)) / tmp2`.
pub open spec fn abc2_coef1(ce: u64, ch: u64) -> u64 {
    let tmp1 = sqrt_bits(mul_bits(ce, ch));
    div_bits(mul_bits(neg_bits(F_TWO), sub_bits(tmp1, div_bits(F_ONE, tmp1))), abc2_tmp2(ce, ch))
}

/// The third 2nd-order advection coefficient:
/// `4 * (sqrt(ce*ch) + 1/sqrt(ce*ch)) / tmp2`.
pub open spec fn abc2_coef2(ce: u64, ch: u64) -> u64 {
    let tmp1 = sqrt_bits(mul_bits(ce, ch));
    div_bits(mul_bits(F_FOUR, add_bits(tmp1, div_bits(F_ONE, tmp1))), abc2_tmp2(ce, ch))
}

/// A 2nd-order advection absorbing boundary: a three-tap coefficient vector
/// and two retained three-sample snapshots per boundary.
pub struct Abc2 {
    pub cl0: u64,
    pub cl1: u64,
    pub cl2: u64,
    pub cr0: u64,
    pub cr1: u64,
    pub cr2: u64,
    pub ol1_0: u64,
    pub ol1_1: u64,
    pub ol1_2: u64,
    pub ol2_0: u64,
    pub ol2_1: u64,
    pub ol2_2: u64,
    pub or1_0: u64,
    pub or1_1: u64,
    pub or1_2: u64,
    pub or2_0: u64,
    pub or2_1: u64,
    pub or2_2: u64,
}

/// Builds the 2nd-order boundary filter from the electric and magnetic
/// cross coefficients local to the two boundaries; the history starts at
/// zero.
pub fn advection_abc_2nd_order(cezh: &Vec<u64>, chye: &Vec<u64>) -> (r: Abc2)
    requires
        cezh@.len() >= 2,
        chye@.len() == cezh@.len(),
    ensures
        r.cl0 == abc2_coef0(cezh@[0], chye@[0]),
        r.cl1 == abc2_coef1(cezh@[0], chye@[0]),
        r.cl2 == abc2_coef2(cezh@[0], chye@[0]),
        r.cr0 == abc2_coef0(cezh@[cezh@.len() - 1], chye@[cezh@.len() - 2]),
        r.cr1 == abc2_coef1(cezh@[cezh@.len() - 1], chye@[cezh@.len() - 2]),
        r.cr2 == abc2_coef2(cezh@[cezh@.len() - 1], chye@[cezh@.len() - 2]),
        r.ol1_0 == F_ZERO && r.ol1_1 == F_ZERO && r.ol1_2 == F_ZERO,
        r.ol2_0 == F_ZERO && r.ol2_1 == F_ZERO && r.ol2_2 == F_ZERO,
        r.or1_0 == F_ZERO && r.or1_1 == F_ZERO && r.or1_2 == F_ZERO,
        r.or2_0 == F_ZERO && r.or2_1 == F_ZERO && r.or2_2 == F_ZERO,
{
    let len = cezh.len();
    let tl = f_sqrt(f_mul(cezh[0], chye[0]));
    let tl2 = f_add(f_add(f_div(F_ONE, tl), F_TWO), tl);
    let cl0 = f_div(f_neg(f_add(f_sub(f_div(F_ONE, tl), F_TWO), tl)), tl2);
    let cl1 = f_div(f_mul(f_neg(F_TWO), f_sub(tl, f_div(F_ONE, tl))), tl2);
    let cl2 = f_div(f_mul(F_FOUR, f_add(tl, f_div(F_ONE, tl))), tl2);
    let tr = f_sqrt(f_mul(cezh[len - 1], chye[len - 2]));
    let tr2 = f_add(f_add(f_div(F_ONE, tr), F_TWO), tr);
    let cr0 = f_div(f_neg(f_add(f_sub(f_div(F_ONE, tr), F_TWO), tr)), tr2);
    let cr1 = f_div(f_mul(f_neg(F_TWO), f_sub(tr, f_div(F_ONE, tr))), tr2);
    let cr2 = f_div(f_mul(F_FOUR, f_add(tr, f_div(F_ONE, tr))), tr2);
    Abc2 {
        cl0, cl1, cl2, cr0, cr1, cr2,
        ol1_0: F_ZERO, ol1_1: F_ZERO, ol1_2: F_ZERO,
        ol2_0: F_ZERO, ol2_1: F_ZERO, ol2_2: F_ZERO,
        or1_0: F_ZERO, or1_1: F_ZERO, or1_2: F_ZERO,
        or2_0: F_ZERO, or2_1: F_ZERO, or2_2: F_ZERO,
    }
}

/// One application of the 2nd-order boundary: each edge cell becomes the
/// three-tap extrapolation over the current samples and the two retained
/// snapshots, and the history shifts by one step.
pub open spec fn abc2_apply_spec(s: Abc2, g: GridView) -> (Abc2, GridView) {
    let end = g.x_sz as int;
    let e0 = sub_bits(
        add_bits(
            add_bits(
                mul_bits(s.cl0, add_bits(g.ez[2], s.ol2_0)),
                mul_bits(s.cl1, sub_bits(sub_bits(add_bits(s.ol1_0, s.ol1_2), g.ez[1]), s.ol2_1)),
            ),
            mul_bits(s.cl2, s.ol1_1),
        ),
        s.ol2_2,
    );
    let ez1 = g.ez.update(0, e0);
    let er = sub_bits(
        add_bits(
            add_bits(
                mul_bits(s.cr0, add_bits(ez1[end - 3], s.or2_0)),
                mul_bits(s.cr1, sub_bits(sub_bits(add_bits(s.or1_0, s.or1_2), ez1[end - 2]), s.or2_1)),
            ),
            mul_bits(s.cr2, s.or1_1),
        ),
        s.or2_2,
    );
    let ez2 = ez1.update(end - 1, er);
    (
        Abc2 {
            ol2_0: s.ol1_0,
            ol2_1: s.ol1_1,
            ol2_2: s.ol1_2,
            ol1_0: ez2[0],
            ol1_1: ez2[1],
            ol1_2: ez2[2],
            or2_0: s.or1_0,
            or2_1: s.or1_1,
            or2_2: s.or1_2,
            or1_0: ez2[end - 1],
            or1_1: ez2[end - 2],
            or1_2: ez2[end - 3],
            ..s
        },
        GridView { ez: ez2, ..g },
    )
}

impl StepHook for Abc2 {
    open spec fn pre(self, t: nat, g: GridView) -> bool {
        g.ez.len() == g.x_sz && g.x_sz >= 3
    }

    open spec fn spec_apply(self, t: nat, g: GridView) -> (Self, GridView) {
        abc2_apply_spec(self, g)
    }

    proof fn shape_lemma(self, t: nat, g: GridView) {
        assert(abc2_apply_spec(self, g).1.same_shape(g));
    }

    fn apply(&mut self, t: usize, g: &mut Grid) {
        let end = g.x_sz;
        let e0 = f_sub(
            f_add(
                f_add(
                    f_mul(self.cl0, f_add(g.ez[2], self.ol2_0)),
                    f_mul(
                        self.cl1,
                        f_sub(f_sub(f_add(self.ol1_0, self.ol1_2), g.ez[1]), self.ol2_1),
                    ),
                ),
                f_mul(self.cl2, self.ol1_1),
            ),
            self.ol2_2,
        );
        g.ez[0] = e0;
        let er = f_sub(
            f_add(
                f_add(
                    f_mul(self.cr0, f_add(g.ez[end - 3], self.or2_0)),
                    f_mul(
                        self.cr1,
                        f_sub(f_sub(f_add(self.or1_0, self.or1_2), g.ez[end - 2]), self.or2_1),
                    ),
                ),
                f_mul(self.cr2, self.or1_1),
            ),
            self.or2_2,
        );
        g.ez[end - 1] = er;
        self.ol2_0 = self.ol1_0;
        self.ol2_1 = self.ol1_1;
        self.ol2_2 = self.ol1_2;
        self.ol1_0 = g.ez[0];
        self.ol1_1 = g.ez[1];
        self.ol1_2 = g.ez[2];
        self.or2_0 = self.or1_0;
        self.or2_1 = self.or1_1;
        self.or2_2 = self.or1_2;
        self.or1_0 = g.ez[end - 1];
        self.or1_1 = g.ez[end - 2];
        self.or1_2 = g.ez[end - 3];
        proof {
            assert(g@ =~= abc2_apply_spec(*old(self), old(g)@).1);
        }
    }
}

} // verus!
