//! The field-update stencils: one magnetic and one electric half-step per
//! grid rank, evaluated in place.
//!
//! Every cell update has the shape `coefficient * field + coefficient *
//! (finite difference of the adjacent component)`; edge cells outside a
//! stencil's valid range are left untouched and belong to the boundary and
//! source hooks. The contracts pin every updated sample as a composition of
//! the named IEEE operations of `crate::num`, and state that a source-free
//! all-zero grid with nonnegative finite coefficients stays all-zero.

use vstd::prelude::*;
use vstd::arithmetic::div_mod::lemma_fundamental_div_mod_converse;
use crate::grid::{Grid, GridView};
use crate::num::{F_ZERO, is_nonneg_finite, add_bits, sub_bits, mul_bits, f_add, f_sub, f_mul};

verus! {

/// `cf*f + cd*(d1 - d2)`, the two-tap update of the 1D stencils and of the
/// 2D `hy` stencil.
pub open spec fn upd2_spec(cf: u64, f: u64, cd: u64, d1: u64, d2: u64) -> u64 {
    add_bits(mul_bits(cf, f), mul_bits(cd, sub_bits(d1, d2)))
}

/// `cf*f - cd*(d1 - d2)`, the two-tap update of the 2D `hx` stencil.
pub open spec fn upd2m_spec(cf: u64, f: u64, cd: u64, d1: u64, d2: u64) -> u64 {
    sub_bits(mul_bits(cf, f), mul_bits(cd, sub_bits(d1, d2)))
}

/// `cf*f + cd*((a - b) - (c - d))`, the four-tap update of the 2D electric
/// stencil and of all 3D stencils.
pub open spec fn upd3_spec(cf: u64, f: u64, cd: u64, a: u64, b: u64, c: u64, d: u64) -> u64 {
    add_bits(mul_bits(cf, f), mul_bits(cd, sub_bits(sub_bits(a, b), sub_bits(c, d))))
}

fn upd2(cf: u64, f: u64, cd: u64, d1: u64, d2: u64) -> (r: u64)
    ensures
        r == upd2_spec(cf, f, cd, d1, d2),
        is_nonneg_finite(cf) && is_nonneg_finite(cd) && f == F_ZERO && d1 == F_ZERO && d2 == F_ZERO
            ==> r == F_ZERO,
{
    f_add(f_mul(cf, f), f_mul(cd, f_sub(d1, d2)))
}

fn upd2m(cf: u64, f: u64, cd: u64, d1: u64, d2: u64) -> (r: u64)
    ensures
        r == upd2m_spec(cf, f, cd, d1, d2),
        is_nonneg_finite(cf) && is_nonneg_finite(cd) && f == F_ZERO && d1 == F_ZERO && d2 == F_ZERO
            ==> r == F_ZERO,
{
    f_sub(f_mul(cf, f), f_mul(cd, f_sub(d1, d2)))
}

fn upd3(cf: u64, f: u64, cd: u64, a: u64, b: u64, c: u64, d: u64) -> (r: u64)
    ensures
        r == upd3_spec(cf, f, cd, a, b, c, d),
        is_nonneg_finite(cf) && is_nonneg_finite(cd) && f == F_ZERO && a == F_ZERO && b == F_ZERO
            && c == F_ZERO && d == F_ZERO ==> r == F_ZERO,
{
    f_add(f_mul(cf, f), f_mul(cd, f_sub(f_sub(a, b), f_sub(c, d))))
}

/// `a` agrees with `b` on the extents, the Courant number and every
/// coefficient array; a field array whose flag is set may differ but keeps
/// its length, the others agree too.
pub open spec fn frame(
    a: GridView,
    b: GridView,
    mhx: bool,
    mhy: bool,
    mhz: bool,
    mex: bool,
    mey: bool,
    mez: bool,
) -> bool {
    &&& a.x_sz == b.x_sz
    &&& a.y_sz == b.y_sz
    &&& a.z_sz == b.z_sz
    &&& a.cdtds == b.cdtds
    &&& a.chxh =~= b.chxh
    &&& a.chxe =~= b.chxe
    &&& a.chyh =~= b.chyh
    &&& a.chye =~= b.chye
    &&& a.chzh =~= b.chzh
    &&& a.chze =~= b.chze
    &&& a.cexe =~= b.cexe
    &&& a.cexh =~= b.cexh
    &&& a.ceye =~= b.ceye
    &&& a.ceyh =~= b.ceyh
    &&& a.ceze =~= b.ceze
    &&& a.cezh =~= b.cezh
    &&& a.hx.len() == b.hx.len()
    &&& !mhx ==> a.hx =~= b.hx
    &&& a.hy.len() == b.hy.len()
    &&& !mhy ==> a.hy =~= b.hy
    &&& a.hz.len() == b.hz.len()
    &&& !mhz ==> a.hz =~= b.hz
    &&& a.ex.len() == b.ex.len()
    &&& !mex ==> a.ex =~= b.ex
    &&& a.ey.len() == b.ey.len()
    &&& !mey ==> a.ey =~= b.ey
    &&& a.ez.len() == b.ez.len()
    &&& !mez ==> a.ez =~= b.ez
}

// ------------------------------------------------------------------ 1D ----

/// The 1D magnetic update of cell `k`:
/// `hy[k] = chyh[k]*hy[k] + chye[k]*(ez[k+1] - ez[k])`.
pub open spec fn hy_next_1d(g: GridView, k: int) -> u64 {
    upd2_spec(g.chyh[k], g.hy[k], g.chye[k], g.ez[k + 1], g.ez[k])
}

/// The `hy` array after the 1D magnetic half-step: interior cells
/// `0 <= k < x_sz - 1` updated, the rightmost cell untouched.
pub open spec fn hy_after_1d(g: GridView) -> Seq<u64> {
    Seq::new(g.hy.len(), |k: int| if k < g.x_sz - 1 { hy_next_1d(g, k) } else { g.hy[k] })
}

/// The grid after the 1D magnetic half-step.
pub open spec fn magnetic_1d_spec(g: GridView) -> GridView {
    GridView { hy: hy_after_1d(g), ..g }
}

/// The 1D electric update of cell `k`:
/// `ez[k] = ceze[k]*ez[k] + cezh[k]*(hy[k] - hy[k-1])`.
pub open spec fn ez_next_1d(g: GridView, k: int) -> u64 {
    upd2_spec(g.ceze[k], g.ez[k], g.cezh[k], g.hy[k], g.hy[k - 1])
}

/// The `ez` array after the 1D electric half-step: interior cells
/// `1 <= k < x_sz` updated, the leftmost cell untouched.
pub open spec fn ez_after_1d(g: GridView) -> Seq<u64> {
    Seq::new(g.ez.len(), |k: int| if 1 <= k { ez_next_1d(g, k) } else { g.ez[k] })
}

/// The grid after the 1D electric half-step.
pub open spec fn electric_1d_spec(g: GridView) -> GridView {
    GridView { ez: ez_after_1d(g), ..g }
}

/// One 1D magnetic half-step, in place.
pub fn magnetic_1d(g: &mut Grid)
    requires
        old(g)@.wf_1d(),
        old(g)@.x_sz >= 1,
    ensures
        final(g)@ == magnetic_1d_spec(old(g)@),
        old(g)@.zero_1d() && old(g)@.coeffs_ok_1d() ==> final(g)@.zero_1d(),
{
    let ghost z: bool = old(g)@.zero_1d() && old(g)@.coeffs_ok_1d();
    let x_sz = g.x_sz;
    let mut mm: usize = 0;
    while mm < x_sz - 1
        invariant
            old(g)@.wf_1d(),
            x_sz == old(g)@.x_sz,
            1 <= x_sz,
            0 <= mm <= x_sz - 1,
            frame(g@, old(g)@, false, true, false, false, false, false),
            forall|k: int| 0 <= k < mm ==> g@.hy[k] == hy_next_1d(old(g)@, k),
            forall|k: int| mm <= k < g@.hy.len() ==> g@.hy[k] == old(g)@.hy[k],
            z ==> forall|k: int| 0 <= k < mm ==> g@.hy[k] == F_ZERO,
            z == (old(g)@.zero_1d() && old(g)@.coeffs_ok_1d()),
        decreases x_sz - 1 - mm,
    {
        let v = upd2(g.chyh[mm], g.hy[mm], g.chye[mm], g.ez[mm + 1], g.ez[mm]);
        g.hy[mm] = v;
        mm += 1;
    }
    proof {
        assert(g@ =~= magnetic_1d_spec(old(g)@));
    }
}

/// One 1D electric half-step, in place.
pub fn electric_1d(g: &mut Grid)
    requires
        old(g)@.wf_1d(),
    ensures
        final(g)@ == electric_1d_spec(old(g)@),
        old(g)@.zero_1d() && old(g)@.coeffs_ok_1d() ==> final(g)@.zero_1d(),
{
    let ghost z: bool = old(g)@.zero_1d() && old(g)@.coeffs_ok_1d();
    let x_sz = g.x_sz;
    let mut mm: usize = 1;
    while mm < x_sz
        invariant
            old(g)@.wf_1d(),
            x_sz == old(g)@.x_sz,
            1 <= mm <= x_sz || (mm == 1 && x_sz == 0),
            frame(g@, old(g)@, false, false, false, false, false, true),
            forall|k: int| 1 <= k < mm ==> g@.ez[k] == ez_next_1d(old(g)@, k),
            forall|k: int| (0 <= k < 1 || mm <= k < g@.ez.len()) ==> g@.ez[k] == old(g)@.ez[k],
            z ==> forall|k: int| 1 <= k < mm ==> g@.ez[k] == F_ZERO,
            z == (old(g)@.zero_1d() && old(g)@.coeffs_ok_1d()),
        decreases x_sz - mm,
    {
        let v = upd2(g.ceze[mm], g.ez[mm], g.cezh[mm], g.hy[mm], g.hy[mm - 1]);
        g.ez[mm] = v;
        mm += 1;
    }
    proof {
        assert(g@ =~= electric_1d_spec(old(g)@));
    }
}

// ------------------------------------------------------------------ 2D ----

/// Relates the row-major flat index `m * y + n` of a cell `(m, n)` of an
/// `x` by `y` grid to its bounds, its remainder and its row tests.
pub proof fn lemma_idx2(m: int, n: int, x: int, y: int)
    requires
        0 <= m < x,
        0 <= n < y,
    ensures
        0 <= m * y + n,
        m * y + n < x * y,
        (m * y + n) % y == n,
        ((m * y + n) + y < x * y) <==> (m < x - 1),
        ((m * y + n) >= y) <==> (m >= 1),
        (m + 1) * y == m * y + y,
{
    assert(0 <= m * y + n && m * y + n < x * y) by (nonlinear_arith)
        requires 0 <= m < x, 0 <= n < y;
    lemma_fundamental_div_mod_converse(m * y + n, y, m, n);
    assert(((m * y + n) + y < x * y) <==> (m < x - 1)) by (nonlinear_arith)
        requires 0 <= m < x, 0 <= n < y;
    assert(((m * y + n) >= y) <==> (m >= 1)) by (nonlinear_arith)
        requires 0 <= m < x, 0 <= n < y;
    assert((m + 1) * y == m * y + y) by (nonlinear_arith);
}

/// Cell `k` is updated by the 2D `hx` stencil: its column is not the last.
pub open spec fn hx_valid_2d(g: GridView, k: int) -> bool {
    k % (g.y_sz as int) < g.y_sz - 1
}

/// The 2D `hx` update of cell `k = m*y_sz + n`:
/// `hx(m,n) = chxh*hx(m,n) - chxe*(ez(m,n+1) - ez(m,n))`.
pub open spec fn hx_next_2d(g: GridView, k: int) -> u64 {
    upd2m_spec(g.chxh[k], g.hx[k], g.chxe[k], g.ez[k + 1], g.ez[k])
}

/// The `hx` array after the 2D magnetic half-step.
pub open spec fn hx_after_2d(g: GridView) -> Seq<u64> {
    Seq::new(g.hx.len(), |k: int| if hx_valid_2d(g, k) { hx_next_2d(g, k) } else { g.hx[k] })
}

/// Cell `k` is updated by the 2D `hy` stencil: its row is not the last.
pub open spec fn hy_valid_2d(g: GridView, k: int) -> bool {
    k + g.y_sz < g.x_sz * g.y_sz
}

/// The 2D `hy` update of cell `k = m*y_sz + n`:
/// `hy(m,n) = chyh*hy(m,n) + chye*(ez(m+1,n) - ez(m,n))`.
pub open spec fn hy_next_2d(g: GridView, k: int) -> u64 {
    upd2_spec(g.chyh[k], g.hy[k], g.chye[k], g.ez[k + g.y_sz], g.ez[k])
}

/// The `hy` array after the 2D magnetic half-step.
pub open spec fn hy_after_2d(g: GridView) -> Seq<u64> {
    Seq::new(g.hy.len(), |k: int| if hy_valid_2d(g, k) { hy_next_2d(g, k) } else { g.hy[k] })
}

/// Cell `k` is updated by the 2D electric stencil: neither its row nor its
/// column is the first.
pub open spec fn ez_valid_2d(g: GridView, k: int) -> bool {
    k >= g.y_sz && k % (g.y_sz as int) >= 1
}

/// The 2D electric update of cell `k = m*y_sz + n`:
/// `ez(m,n) = ceze*ez(m,n) + cezh*((hy(m,n) - hy(m-1,n)) - (hx(m,n) - hx(m,n-1)))`.
pub open spec fn ez_next_2d(g: GridView, k: int) -> u64 {
    upd3_spec(
        g.ceze[k],
        g.ez[k],
        g.cezh[k],
        g.hy[k],
        g.hy[k - g.y_sz],
        g.hx[k],
        g.hx[k - 1],
    )
}

/// The `ez` array after the 2D electric half-step.
pub open spec fn ez_after_2d(g: GridView) -> Seq<u64> {
    Seq::new(g.ez.len(), |k: int| if ez_valid_2d(g, k) { ez_next_2d(g, k) } else { g.ez[k] })
}

/// The grid after the 2D magnetic half-step; the two stencils read only the
/// electric field, so their order does not matter.
pub open spec fn magnetic_2d_spec(g: GridView) -> GridView {
    GridView { hx: hx_after_2d(g), hy: hy_after_2d(g), ..g }
}

/// The grid after the 2D electric half-step.
pub open spec fn electric_2d_spec(g: GridView) -> GridView {
    GridView { ez: ez_after_2d(g), ..g }
}

/// The first `p` flat cells of `gc.hx` hold the stencil result over `go`
/// where the stencil applies and the old sample where it does not, and the
/// rest still hold the old samples; under `z`, updated cells are zero.
spec fn hx2_partial(go: GridView, gc: GridView, p: int, z: bool) -> bool {
    &&& forall|k: int| 0 <= k < p && hx_valid_2d(go, k) ==> gc.hx[k] == hx_next_2d(go, k)
    &&& forall|k: int| 0 <= k < p && !hx_valid_2d(go, k) ==> gc.hx[k] == go.hx[k]
    &&& forall|k: int| p <= k < gc.hx.len() ==> gc.hx[k] == go.hx[k]
    &&& z ==> forall|k: int| 0 <= k < p ==> gc.hx[k] == F_ZERO
}

spec fn hy2_partial(go: GridView, gc: GridView, p: int, z: bool) -> bool {
    &&& forall|k: int| 0 <= k < p && hy_valid_2d(go, k) ==> gc.hy[k] == hy_next_2d(go, k)
    &&& forall|k: int| 0 <= k < p && !hy_valid_2d(go, k) ==> gc.hy[k] == go.hy[k]
    &&& forall|k: int| p <= k < gc.hy.len() ==> gc.hy[k] == go.hy[k]
    &&& z ==> forall|k: int| 0 <= k < p ==> gc.hy[k] == F_ZERO
}

spec fn ez2_partial(go: GridView, gc: GridView, p: int, z: bool) -> bool {
    &&& forall|k: int| 0 <= k < p && ez_valid_2d(go, k) ==> gc.ez[k] == ez_next_2d(go, k)
    &&& forall|k: int| 0 <= k < p && !ez_valid_2d(go, k) ==> gc.ez[k] == go.ez[k]
    &&& forall|k: int| p <= k < gc.ez.len() ==> gc.ez[k] == go.ez[k]
    &&& z ==> forall|k: int| 0 <= k < p ==> gc.ez[k] == F_ZERO
}

/// One 2D (TM polarization) magnetic half-step, in place.
pub fn magnetic_2d(g: &mut Grid)
    requires
        old(g)@.wf_2d(),
        old(g)@.x_sz >= 1,
        old(g)@.y_sz >= 1,
    ensures
        final(g)@ == magnetic_2d_spec(old(g)@),
        old(g)@.zero_2d() && old(g)@.coeffs_ok_2d() ==> final(g)@.zero_2d(),
{
    let ghost z: bool = old(g)@.zero_2d() && old(g)@.coeffs_ok_2d();
    let x_sz = g.x_sz;
    let y_sz = g.y_sz;
    let len = g.hx.len();

    let mut m: usize = 0;
    while m < x_sz
        invariant
            old(g)@.wf_2d(),
            x_sz == old(g)@.x_sz,
            y_sz == old(g)@.y_sz,
            1 <= x_sz,
            1 <= y_sz,
            len == x_sz * y_sz,
            0 <= m <= x_sz,
            frame(g@, old(g)@, true, false, false, false, false, false),
            hx2_partial(old(g)@, g@, m * y_sz, z),
            z == (old(g)@.zero_2d() && old(g)@.coeffs_ok_2d()),
        decreases x_sz - m,
    {
        let mut n: usize = 0;
        while n < y_sz - 1
            invariant
                old(g)@.wf_2d(),
                x_sz == old(g)@.x_sz,
                y_sz == old(g)@.y_sz,
                1 <= x_sz,
                1 <= y_sz,
                len == x_sz * y_sz,
                0 <= m < x_sz,
                0 <= n <= y_sz - 1,
                frame(g@, old(g)@, true, false, false, false, false, false),
                hx2_partial(old(g)@, g@, m * y_sz + n, z),
                z == (old(g)@.zero_2d() && old(g)@.coeffs_ok_2d()),
            decreases y_sz - 1 - n,
        {
            proof {
                lemma_idx2(m as int, n as int, x_sz as int, y_sz as int);
                lemma_idx2(m as int, n as int + 1, x_sz as int, y_sz as int);
            }
            let k = m * y_sz + n;
            let v = upd2m(g.chxh[k], g.hx[k], g.chxe[k], g.ez[k + 1], g.ez[k]);
            g.hx[k] = v;
            n += 1;
        }
        proof {
            lemma_idx2(m as int, (y_sz - 1) as int, x_sz as int, y_sz as int);
            assert(m * y_sz + (y_sz - 1) < (m + 1) * y_sz);
            assert(!hx_valid_2d(old(g)@, m * y_sz + (y_sz - 1)));
        }
        m += 1;
    }

    let ghost mid = g@;
    proof {
        assert(mid.hx =~= hx_after_2d(old(g)@));
    }

    let mut m: usize = 0;
    while m < x_sz - 1
        invariant
            old(g)@.wf_2d(),
            x_sz == old(g)@.x_sz,
            y_sz == old(g)@.y_sz,
            1 <= x_sz,
            1 <= y_sz,
            len == x_sz * y_sz,
            0 <= m <= x_sz - 1,
            frame(g@, old(g)@, true, true, false, false, false, false),
            g@.hx =~= hx_after_2d(old(g)@),
            z ==> forall|k: int| 0 <= k < g@.hx.len() ==> g@.hx[k] == F_ZERO,
            hy2_partial(old(g)@, g@, m * y_sz, z),
            z == (old(g)@.zero_2d() && old(g)@.coeffs_ok_2d()),
        decreases x_sz - 1 - m,
    {
        let mut n: usize = 0;
        while n < y_sz
            invariant
                old(g)@.wf_2d(),
                x_sz == old(g)@.x_sz,
                y_sz == old(g)@.y_sz,
                1 <= x_sz,
                1 <= y_sz,
                len == x_sz * y_sz,
                0 <= m < x_sz - 1,
                0 <= n <= y_sz,
                frame(g@, old(g)@, true, true, false, false, false, false),
                g@.hx =~= hx_after_2d(old(g)@),
                z ==> forall|k: int| 0 <= k < g@.hx.len() ==> g@.hx[k] == F_ZERO,
                hy2_partial(old(g)@, g@, m * y_sz + n, z),
                z == (old(g)@.zero_2d() && old(g)@.coeffs_ok_2d()),
            decreases y_sz - n,
        {
            proof {
                lemma_idx2(m as int, n as int, x_sz as int, y_sz as int);
                lemma_idx2(m as int + 1, n as int, x_sz as int, y_sz as int);
            }
            let k = m * y_sz + n;
            let v = upd2(g.chyh[k], g.hy[k], g.chye[k], g.ez[k + y_sz], g.ez[k]);
            g.hy[k] = v;
            n += 1;
        }
        proof {
            lemma_idx2(m as int, 0, x_sz as int, y_sz as int);
        }
        m += 1;
    }

    proof {
        assert forall|k: int| (x_sz - 1) * y_sz <= k < len implies !hy_valid_2d(old(g)@, k) by {
            assert(k + y_sz >= x_sz * y_sz) by (nonlinear_arith)
                requires k >= (x_sz - 1) * y_sz, len == x_sz * y_sz, k < len, 1 <= y_sz;
        }
        assert(g@.hy =~= hy_after_2d(old(g)@));
        assert(g@ =~= magnetic_2d_spec(old(g)@));
    }
}

/// One 2D (TM polarization) electric half-step, in place.
pub fn electric_2d(g: &mut Grid)
    requires
        old(g)@.wf_2d(),
        old(g)@.x_sz >= 1,
        old(g)@.y_sz >= 1,
    ensures
        final(g)@ == electric_2d_spec(old(g)@),
        old(g)@.zero_2d() && old(g)@.coeffs_ok_2d() ==> final(g)@.zero_2d(),
{
    let ghost z: bool = old(g)@.zero_2d() && old(g)@.coeffs_ok_2d();
    let x_sz = g.x_sz;
    let y_sz = g.y_sz;
    let len = g.ez.len();
    proof {
        assert(y_sz <= x_sz * y_sz) by (nonlinear_arith)
            requires 1 <= x_sz, 0 <= y_sz;
    }

    let mut m: usize = 1;
    while m < x_sz
        invariant
            old(g)@.wf_2d(),
            x_sz == old(g)@.x_sz,
            y_sz == old(g)@.y_sz,
            1 <= x_sz,
            1 <= y_sz,
            len == x_sz * y_sz,
            1 <= m <= x_sz,
            frame(g@, old(g)@, false, false, false, false, false, true),
            ez2_partial(old(g)@, g@, m * y_sz, z),
            z == (old(g)@.zero_2d() && old(g)@.coeffs_ok_2d()),
        decreases x_sz - m,
    {
        proof {
            lemma_idx2(m as int, 0, x_sz as int, y_sz as int);
            assert(!ez_valid_2d(old(g)@, m * y_sz));
        }
        let mut n: usize = 1;
        while n < y_sz
            invariant
                old(g)@.wf_2d(),
                x_sz == old(g)@.x_sz,
                y_sz == old(g)@.y_sz,
                1 <= x_sz,
                1 <= y_sz,
                len == x_sz * y_sz,
                1 <= m < x_sz,
                1 <= n <= y_sz,
                frame(g@, old(g)@, false, false, false, false, false, true),
                ez2_partial(old(g)@, g@, m * y_sz + n, z),
                z == (old(g)@.zero_2d() && old(g)@.coeffs_ok_2d()),
            decreases y_sz - n,
        {
            proof {
                lemma_idx2(m as int, n as int, x_sz as int, y_sz as int);
                lemma_idx2(m as int - 1, n as int, x_sz as int, y_sz as int);
            }
            let k = m * y_sz + n;
            let v = upd3(
                g.ceze[k],
                g.ez[k],
                g.cezh[k],
                g.hy[k],
                g.hy[k - y_sz],
                g.hx[k],
                g.hx[k - 1],
            );
            g.ez[k] = v;
            n += 1;
        }
        proof {
            lemma_idx2(m as int, 0, x_sz as int, y_sz as int);
            assert(m * y_sz + y_sz == (m + 1) * y_sz) by (nonlinear_arith);
            assert(!ez_valid_2d(old(g)@, m * y_sz));
        }
        m += 1;
    }

    proof {
        assert(forall|k: int| 0 <= k < y_sz ==> !ez_valid_2d(old(g)@, k));
        assert(g@.ez =~= ez_after_2d(old(g)@));
        assert(g@ =~= electric_2d_spec(old(g)@));
    }
}

// ------------------------------------------------------------------ 3D ----

/// Every flat index of the row `q` of cells, `q*z <= k < (q+1)*z`, divides
/// by `z` back to `q`.
pub proof fn lemma_row_range(q: int, z: int, k: int)
    requires
        z >= 1,
        0 <= q,
        q * z <= k,
        k < (q + 1) * z,
    ensures
        k / z == q,
        k % z == k - q * z,
{
    assert((q + 1) * z == q * z + z) by (nonlinear_arith);
    lemma_fundamental_div_mod_converse(k, z, q, k - q * z);
}

/// Relates the row-major flat index `(m*y + n)*z + p` of a cell `(m, n, p)`
/// of an `x` by `y` by `z` grid to its bounds, its axis remainders and its
/// neighbour indices.
pub proof fn lemma_idx3(m: int, n: int, p: int, x: int, y: int, z: int)
    requires
        0 <= m < x,
        0 <= n < y,
        0 <= p < z,
    ensures
        0 <= (m * y + n) * z + p,
        (m * y + n) * z + p < x * y * z,
        ((m * y + n) * z + p) % z == p,
        (((m * y + n) * z + p) / z) % y == n,
        (((m * y + n) * z + p) + y * z < x * y * z) <==> (m < x - 1),
        (((m * y + n) * z + p) >= y * z) <==> (m >= 1),
        (m * y + (n + 1)) * z == (m * y + n) * z + z,
        ((m + 1) * y + n) * z == (m * y + n) * z + y * z,
        y * z <= x * y * z,
        m * y + n <= (m * y + n) * z,
{
    lemma_idx2(m, n, x, y);
    lemma_idx2(m * y + n, p, x * y, z);
    assert(x * y * z == (x * y) * z);
    lemma_fundamental_div_mod_converse((m * y + n) * z + p, z, m * y + n, p);
    assert(((m * y + n) * z + p >= y * z) <==> (m >= 1)) by (nonlinear_arith)
        requires 0 <= m < x, 0 <= n < y, 0 <= p < z;
    assert(((m * y + n) * z + p + y * z < x * y * z) <==> (m < x - 1)) by (nonlinear_arith)
        requires 0 <= m < x, 0 <= n < y, 0 <= p < z;
    assert((m * y + (n + 1)) * z == (m * y + n) * z + z) by (nonlinear_arith);
    assert(((m + 1) * y + n) * z == (m * y + n) * z + y * z) by (nonlinear_arith);
    assert(y * z <= x * y * z) by (nonlinear_arith)
        requires 1 <= x, 0 <= y, 0 <= z;
    assert(m * y + n <= (m * y + n) * z) by (nonlinear_arith)
        requires 0 <= m, 0 <= n, 0 <= y, 1 <= z;
}

/// Cell `k` is updated by the 3D `hx` stencil: neither its `y` row nor its
/// `z` column is the last.
pub open spec fn hx_valid_3d(g: GridView, k: int) -> bool {
    (k / (g.z_sz as int)) % (g.y_sz as int) < g.y_sz - 1 && k % (g.z_sz as int) < g.z_sz - 1
}

/// `hx(m,n,p) = chxh*hx + chxe*((ey(m,n,p+1) - ey(m,n,p)) - (ez(m,n+1,p) - ez(m,n,p)))`.
pub open spec fn hx_next_3d(g: GridView, k: int) -> u64 {
    upd3_spec(g.chxh[k], g.hx[k], g.chxe[k], g.ey[k + 1], g.ey[k], g.ez[k + g.z_sz], g.ez[k])
}

/// The `hx` array after the 3D magnetic half-step.
pub open spec fn hx_after_3d(g: GridView) -> Seq<u64> {
    Seq::new(g.hx.len(), |k: int| if hx_valid_3d(g, k) { hx_next_3d(g, k) } else { g.hx[k] })
}

/// Cell `k` is updated by the 3D `hy` stencil: neither its `x` slab nor its
/// `z` column is the last.
pub open spec fn hy_valid_3d(g: GridView, k: int) -> bool {
    k + g.y_sz * g.z_sz < g.x_sz * g.y_sz * g.z_sz && k % (g.z_sz as int) < g.z_sz - 1
}

/// `hy(m,n,p) = chyh*hy + chye*((ez(m+1,n,p) - ez(m,n,p)) - (ex(m,n,p+1) - ex(m,n,p)))`.
pub open spec fn hy_next_3d(g: GridView, k: int) -> u64 {
    upd3_spec(
        g.chyh[k],
        g.hy[k],
        g.chye[k],
        g.ez[k + g.y_sz * g.z_sz],
        g.ez[k],
        g.ex[k + 1],
        g.ex[k],
    )
}

/// The `hy` array after the 3D magnetic half-step.
pub open spec fn hy_after_3d(g: GridView) -> Seq<u64> {
    Seq::new(g.hy.len(), |k: int| if hy_valid_3d(g, k) { hy_next_3d(g, k) } else { g.hy[k] })
}

/// Cell `k` is updated by the 3D `hz` stencil: neither its `x` slab nor its
/// `y` row is the last.
pub open spec fn hz_valid_3d(g: GridView, k: int) -> bool {
    k + g.y_sz * g.z_sz < g.x_sz * g.y_sz * g.z_sz
        && (k / (g.z_sz as int)) % (g.y_sz as int) < g.y_sz - 1
}

/// `hz(m,n,p) = chzh*hz + chze*((ex(m,n+1,p) - ex(m,n,p)) - (ey(m+1,n,p) - ey(m,n,p)))`.
pub open spec fn hz_next_3d(g: GridView, k: int) -> u64 {
    upd3_spec(
        g.chzh[k],
        g.hz[k],
        g.chze[k],
        g.ex[k + g.z_sz],
        g.ex[k],
        g.ey[k + g.y_sz * g.z_sz],
        g.ey[k],
    )
}

/// The `hz` array after the 3D magnetic half-step.
pub open spec fn hz_after_3d(g: GridView) -> Seq<u64> {
    Seq::new(g.hz.len(), |k: int| if hz_valid_3d(g, k) { hz_next_3d(g, k) } else { g.hz[k] })
}

/// Cell `k` is updated by the 3D `ex` stencil: neither its `y` row nor its
/// `z` column is the first.
pub open spec fn ex_valid_3d(g: GridView, k: int) -> bool {
    (k / (g.z_sz as int)) % (g.y_sz as int) >= 1 && k % (g.z_sz as int) >= 1
}

/// `ex(m,n,p) = cexe*ex + cexh*((hz(m,n,p) - hz(m,n-1,p)) - (hy(m,n,p) - hy(m,n,p-1)))`.
pub open spec fn ex_next_3d(g: GridView, k: int) -> u64 {
    upd3_spec(g.cexe[k], g.ex[k], g.cexh[k], g.hz[k], g.hz[k - g.z_sz], g.hy[k], g.hy[k - 1])
}

/// The `ex` array after the 3D electric half-step.
pub open spec fn ex_after_3d(g: GridView) -> Seq<u64> {
    Seq::new(g.ex.len(), |k: int| if ex_valid_3d(g, k) { ex_next_3d(g, k) } else { g.ex[k] })
}

/// Cell `k` is updated by the 3D `ey` stencil: neither its `x` slab nor its
/// `z` column is the first.
pub open spec fn ey_valid_3d(g: GridView, k: int) -> bool {
    k >= g.y_sz * g.z_sz && k % (g.z_sz as int) >= 1
}

/// `ey(m,n,p) = ceye*ey + ceyh*((hx(m,n,p) - hx(m,n,p-1)) - (hz(m,n,p) - hz(m-1,n,p)))`.
pub open spec fn ey_next_3d(g: GridView, k: int) -> u64 {
    upd3_spec(
        g.ceye[k],
        g.ey[k],
        g.ceyh[k],
        g.hx[k],
        g.hx[k - 1],
        g.hz[k],
        g.hz[k - g.y_sz * g.z_sz],
    )
}

/// The `ey` array after the 3D electric half-step.
pub open spec fn ey_after_3d(g: GridView) -> Seq<u64> {
    Seq::new(g.ey.len(), |k: int| if ey_valid_3d(g, k) { ey_next_3d(g, k) } else { g.ey[k] })
}

/// Cell `k` is updated by the 3D `ez` stencil: neither its `x` slab nor its
/// `y` row is the first.
pub open spec fn ez_valid_3d(g: GridView, k: int) -> bool {
    k >= g.y_sz * g.z_sz && (k / (g.z_sz as int)) % (g.y_sz as int) >= 1
}

/// `ez(m,n,p) = ceze*ez + cezh*((hy(m,n,p) - hy(m-1,n,p)) - (hx(m,n,p) - hx(m,n-1,p)))`.
pub open spec fn ez_next_3d(g: GridView, k: int) -> u64 {
    upd3_spec(
        g.ceze[k],
        g.ez[k],
        g.cezh[k],
        g.hy[k],
        g.hy[k - g.y_sz * g.z_sz],
        g.hx[k],
        g.hx[k - g.z_sz],
    )
}

/// The `ez` array after the 3D electric half-step.
pub open spec fn ez_after_3d(g: GridView) -> Seq<u64> {
    Seq::new(g.ez.len(), |k: int| if ez_valid_3d(g, k) { ez_next_3d(g, k) } else { g.ez[k] })
}

/// The grid after the 3D magnetic half-step; the three stencils read only
/// the electric field, so their order does not matter.
pub open spec fn magnetic_3d_spec(g: GridView) -> GridView {
    GridView { hx: hx_after_3d(g), hy: hy_after_3d(g), hz: hz_after_3d(g), ..g }
}

/// The grid after the 3D electric half-step; the three stencils read only
/// the magnetic field.
pub open spec fn electric_3d_spec(g: GridView) -> GridView {
    GridView { ex: ex_after_3d(g), ey: ey_after_3d(g), ez: ez_after_3d(g), ..g }
}

spec fn hx3_partial(go: GridView, gc: GridView, pr: int, z: bool) -> bool {
    &&& forall|k: int| 0 <= k < pr && hx_valid_3d(go, k) ==> gc.hx[k] == hx_next_3d(go, k)
    &&& forall|k: int| 0 <= k < pr && !hx_valid_3d(go, k) ==> gc.hx[k] == go.hx[k]
    &&& forall|k: int| pr <= k < gc.hx.len() ==> gc.hx[k] == go.hx[k]
    &&& z ==> forall|k: int| 0 <= k < pr ==> gc.hx[k] == F_ZERO
}

spec fn hy3_partial(go: GridView, gc: GridView, pr: int, z: bool) -> bool {
    &&& forall|k: int| 0 <= k < pr && hy_valid_3d(go, k) ==> gc.hy[k] == hy_next_3d(go, k)
    &&& forall|k: int| 0 <= k < pr && !hy_valid_3d(go, k) ==> gc.hy[k] == go.hy[k]
    &&& forall|k: int| pr <= k < gc.hy.len() ==> gc.hy[k] == go.hy[k]
    &&& z ==> forall|k: int| 0 <= k < pr ==> gc.hy[k] == F_ZERO
}

spec fn hz3_partial(go: GridView, gc: GridView, pr: int, z: bool) -> bool {
    &&& forall|k: int| 0 <= k < pr && hz_valid_3d(go, k) ==> gc.hz[k] == hz_next_3d(go, k)
    &&& forall|k: int| 0 <= k < pr && !hz_valid_3d(go, k) ==> gc.hz[k] == go.hz[k]
    &&& forall|k: int| pr <= k < gc.hz.len() ==> gc.hz[k] == go.hz[k]
    &&& z ==> forall|k: int| 0 <= k < pr ==> gc.hz[k] == F_ZERO
}

/// One 3D magnetic half-step, in place.
#[verifier::rlimit(50)]
pub fn magnetic_3d(g: &mut Grid)
    requires
        old(g)@.wf_3d(),
        old(g)@.x_sz >= 1,
        old(g)@.y_sz >= 1,
        old(g)@.z_sz >= 1,
    ensures
        final(g)@ == magnetic_3d_spec(old(g)@),
        old(g)@.zero_3d() && old(g)@.coeffs_ok_3d() ==> final(g)@.zero_3d(),
{
    let ghost zf: bool = old(g)@.zero_3d() && old(g)@.coeffs_ok_3d();
    let x_sz = g.x_sz;
    let y_sz = g.y_sz;
    let z_sz = g.z_sz;
    let len = g.hx.len();
    proof {
        assert(y_sz * z_sz <= x_sz * y_sz * z_sz) by (nonlinear_arith)
            requires 1 <= x_sz, 0 <= y_sz, 0 <= z_sz;
    }
    let yz = y_sz * z_sz;

    // hx: m in [0,x), n in [0,y-1), p in [0,z-1).
    proof {
        assert((0 * y_sz) * z_sz == 0) by (nonlinear_arith);
    }
    let mut m: usize = 0;
    while m < x_sz
        invariant
            old(g)@.wf_3d(),
            x_sz == old(g)@.x_sz,
            y_sz == old(g)@.y_sz,
            z_sz == old(g)@.z_sz,
            1 <= x_sz && 1 <= y_sz && 1 <= z_sz,
            len == x_sz * y_sz * z_sz,
            yz == y_sz * z_sz,
            0 <= m <= x_sz,
            frame(g@, old(g)@, true, false, false, false, false, false),
            hx3_partial(old(g)@, g@, (m * y_sz) * z_sz, zf),
            zf == (old(g)@.zero_3d() && old(g)@.coeffs_ok_3d()),
        decreases x_sz - m,
    {
        let mut n: usize = 0;
        while n < y_sz - 1
            invariant
                old(g)@.wf_3d(),
                x_sz == old(g)@.x_sz,
                y_sz == old(g)@.y_sz,
                z_sz == old(g)@.z_sz,
                1 <= x_sz && 1 <= y_sz && 1 <= z_sz,
                len == x_sz * y_sz * z_sz,
                yz == y_sz * z_sz,
                0 <= m < x_sz,
                0 <= n <= y_sz - 1,
                frame(g@, old(g)@, true, false, false, false, false, false),
                hx3_partial(old(g)@, g@, (m * y_sz + n) * z_sz, zf),
                zf == (old(g)@.zero_3d() && old(g)@.coeffs_ok_3d()),
            decreases y_sz - 1 - n,
        {
            let mut p: usize = 0;
            while p < z_sz - 1
                invariant
                    old(g)@.wf_3d(),
                    x_sz == old(g)@.x_sz,
                    y_sz == old(g)@.y_sz,
                    z_sz == old(g)@.z_sz,
                    1 <= x_sz && 1 <= y_sz && 1 <= z_sz,
                    len == x_sz * y_sz * z_sz,
                    yz == y_sz * z_sz,
                    0 <= m < x_sz,
                    0 <= n < y_sz - 1,
                    0 <= p <= z_sz - 1,
                    frame(g@, old(g)@, true, false, false, false, false, false),
                    hx3_partial(old(g)@, g@, (m * y_sz + n) * z_sz + p, zf),
                    zf == (old(g)@.zero_3d() && old(g)@.coeffs_ok_3d()),
                decreases z_sz - 1 - p,
            {
                proof {
                    lemma_idx3(m as int, n as int, p as int, x_sz as int, y_sz as int, z_sz as int);
                    lemma_idx3(m as int, n as int, p as int + 1, x_sz as int, y_sz as int, z_sz as int);
                    lemma_idx3(m as int, n as int + 1, p as int, x_sz as int, y_sz as int, z_sz as int);
                }
                let k = (m * y_sz + n) * z_sz + p;
                let v = upd3(
                    g.chxh[k],
                    g.hx[k],
                    g.chxe[k],
                    g.ey[k + 1],
                    g.ey[k],
                    g.ez[k + z_sz],
                    g.ez[k],
                );
                g.hx[k] = v;
                p += 1;
            }
            proof {
                lemma_idx3(m as int, n as int, z_sz as int - 1, x_sz as int, y_sz as int, z_sz as int);
            }
            n += 1;
        }
        proof {
            lemma_idx2(m as int, y_sz as int - 1, x_sz as int, y_sz as int);
            let q = m as int * y_sz + (y_sz - 1);
            assert forall|k: int| q * z_sz <= k < (q + 1) * z_sz implies !hx_valid_3d(
                old(g)@,
                k,
            ) by {
                lemma_row_range(q, z_sz as int, k);
            }
            assert((q + 1) * z_sz == ((m as int + 1) * y_sz) * z_sz);
            assert(((m as int + 1) * y_sz) * z_sz <= x_sz * y_sz * z_sz) by (nonlinear_arith)
                requires m as int + 1 <= x_sz, 0 <= y_sz, 0 <= z_sz;
            assert((q + 1) * z_sz == q * z_sz + z_sz) by (nonlinear_arith);
        }
        m += 1;
    }

    proof {
        assert(g@.hx =~= hx_after_3d(old(g)@));
    }

    // hy: m in [0,x-1), n in [0,y), p in [0,z-1).
    proof {
        assert((0 * y_sz) * z_sz == 0) by (nonlinear_arith);
    }
    let mut m: usize = 0;
    while m < x_sz - 1
        invariant
            old(g)@.wf_3d(),
            x_sz == old(g)@.x_sz,
            y_sz == old(g)@.y_sz,
            z_sz == old(g)@.z_sz,
            1 <= x_sz && 1 <= y_sz && 1 <= z_sz,
            len == x_sz * y_sz * z_sz,
            yz == y_sz * z_sz,
            0 <= m <= x_sz - 1,
            frame(g@, old(g)@, true, true, false, false, false, false),
            g@.hx =~= hx_after_3d(old(g)@),
            zf ==> forall|k: int| 0 <= k < g@.hx.len() ==> g@.hx[k] == F_ZERO,
            hy3_partial(old(g)@, g@, (m * y_sz) * z_sz, zf),
            zf == (old(g)@.zero_3d() && old(g)@.coeffs_ok_3d()),
        decreases x_sz - 1 - m,
    {
        let mut n: usize = 0;
        while n < y_sz
            invariant
                old(g)@.wf_3d(),
                x_sz == old(g)@.x_sz,
                y_sz == old(g)@.y_sz,
                z_sz == old(g)@.z_sz,
                1 <= x_sz && 1 <= y_sz && 1 <= z_sz,
                len == x_sz * y_sz * z_sz,
                yz == y_sz * z_sz,
                0 <= m < x_sz - 1,
                0 <= n <= y_sz,
                frame(g@, old(g)@, true, true, false, false, false, false),
                g@.hx =~= hx_after_3d(old(g)@),
                zf ==> forall|k: int| 0 <= k < g@.hx.len() ==> g@.hx[k] == F_ZERO,
                hy3_partial(old(g)@, g@, (m * y_sz + n) * z_sz, zf),
                zf == (old(g)@.zero_3d() && old(g)@.coeffs_ok_3d()),
            decreases y_sz - n,
        {
            let mut p: usize = 0;
            while p < z_sz - 1
                invariant
                    old(g)@.wf_3d(),
                    x_sz == old(g)@.x_sz,
                    y_sz == old(g)@.y_sz,
                    z_sz == old(g)@.z_sz,
                    1 <= x_sz && 1 <= y_sz && 1 <= z_sz,
                    len == x_sz * y_sz * z_sz,
                    yz == y_sz * z_sz,
                    0 <= m < x_sz - 1,
                    0 <= n < y_sz,
                    0 <= p <= z_sz - 1,
                    frame(g@, old(g)@, true, true, false, false, false, false),
                    g@.hx =~= hx_after_3d(old(g)@),
                    zf ==> forall|k: int| 0 <= k < g@.hx.len() ==> g@.hx[k] == F_ZERO,
                    hy3_partial(old(g)@, g@, (m * y_sz + n) * z_sz + p, zf),
                    zf == (old(g)@.zero_3d() && old(g)@.coeffs_ok_3d()),
                decreases z_sz - 1 - p,
            {
                proof {
                    lemma_idx3(m as int, n as int, p as int, x_sz as int, y_sz as int, z_sz as int);
                    lemma_idx3(m as int, n as int, p as int + 1, x_sz as int, y_sz as int, z_sz as int);
                    lemma_idx3(m as int + 1, n as int, p as int, x_sz as int, y_sz as int, z_sz as int);
                }
                let k = (m * y_sz + n) * z_sz + p;
                let v = upd3(
                    g.chyh[k],
                    g.hy[k],
                    g.chye[k],
                    g.ez[k + yz],
                    g.ez[k],
                    g.ex[k + 1],
                    g.ex[k],
                );
                g.hy[k] = v;
                p += 1;
            }
            proof {
                lemma_idx3(m as int, n as int, z_sz as int - 1, x_sz as int, y_sz as int, z_sz as int);
            }
            n += 1;
        }
        proof {
            lemma_idx2(m as int, 0, x_sz as int, y_sz as int);
            assert((m as int * y_sz + y_sz) * z_sz == ((m as int + 1) * y_sz) * z_sz);
        }
        m += 1;
    }

    proof {
        assert forall|k: int| ((x_sz as int - 1) * y_sz) * z_sz <= k < len implies !hy_valid_3d(
            old(g)@,
            k,
        ) by {
            assert(k + y_sz * z_sz >= x_sz * y_sz * z_sz) by (nonlinear_arith)
                requires
                    k >= ((x_sz as int - 1) * y_sz) * z_sz,
                    1 <= x_sz && 1 <= y_sz && 1 <= z_sz,
            ;
        }
        assert(g@.hy =~= hy_after_3d(old(g)@));
    }

    // hz: m in [0,x-1), n in [0,y-1), p in [0,z).
    proof {
        assert((0 * y_sz) * z_sz == 0) by (nonlinear_arith);
    }
    let mut m: usize = 0;
    while m < x_sz - 1
        invariant
            old(g)@.wf_3d(),
            x_sz == old(g)@.x_sz,
            y_sz == old(g)@.y_sz,
            z_sz == old(g)@.z_sz,
            1 <= x_sz && 1 <= y_sz && 1 <= z_sz,
            len == x_sz * y_sz * z_sz,
            yz == y_sz * z_sz,
            0 <= m <= x_sz - 1,
            frame(g@, old(g)@, true, true, true, false, false, false),
            g@.hx =~= hx_after_3d(old(g)@),
            g@.hy =~= hy_after_3d(old(g)@),
            zf ==> forall|k: int| 0 <= k < g@.hx.len() ==> g@.hx[k] == F_ZERO,
            zf ==> forall|k: int| 0 <= k < g@.hy.len() ==> g@.hy[k] == F_ZERO,
            hz3_partial(old(g)@, g@, (m * y_sz) * z_sz, zf),
            zf == (old(g)@.zero_3d() && old(g)@.coeffs_ok_3d()),
        decreases x_sz - 1 - m,
    {
        let mut n: usize = 0;
        while n < y_sz - 1
            invariant
                old(g)@.wf_3d(),
                x_sz == old(g)@.x_sz,
                y_sz == old(g)@.y_sz,
                z_sz == old(g)@.z_sz,
                1 <= x_sz && 1 <= y_sz && 1 <= z_sz,
                len == x_sz * y_sz * z_sz,
                yz == y_sz * z_sz,
                0 <= m < x_sz - 1,
                0 <= n <= y_sz - 1,
                frame(g@, old(g)@, true, true, true, false, false, false),
                g@.hx =~= hx_after_3d(old(g)@),
                g@.hy =~= hy_after_3d(old(g)@),
                zf ==> forall|k: int| 0 <= k < g@.hx.len() ==> g@.hx[k] == F_ZERO,
                zf ==> forall|k: int| 0 <= k < g@.hy.len() ==> g@.hy[k] == F_ZERO,
                hz3_partial(old(g)@, g@, (m * y_sz + n) * z_sz, zf),
                zf == (old(g)@.zero_3d() && old(g)@.coeffs_ok_3d()),
            decreases y_sz - 1 - n,
        {
            let mut p: usize = 0;
            while p < z_sz
                invariant
                    old(g)@.wf_3d(),
                    x_sz == old(g)@.x_sz,
                    y_sz == old(g)@.y_sz,
                    z_sz == old(g)@.z_sz,
                    1 <= x_sz && 1 <= y_sz && 1 <= z_sz,
                    len == x_sz * y_sz * z_sz,
                    yz == y_sz * z_sz,
                    0 <= m < x_sz - 1,
                    0 <= n < y_sz - 1,
                    0 <= p <= z_sz,
                    frame(g@, old(g)@, true, true, true, false, false, false),
                    g@.hx =~= hx_after_3d(old(g)@),
                    g@.hy =~= hy_after_3d(old(g)@),
                    zf ==> forall|k: int| 0 <= k < g@.hx.len() ==> g@.hx[k] == F_ZERO,
                    zf ==> forall|k: int| 0 <= k < g@.hy.len() ==> g@.hy[k] == F_ZERO,
                    hz3_partial(old(g)@, g@, (m * y_sz + n) * z_sz + p, zf),
                    zf == (old(g)@.zero_3d() && old(g)@.coeffs_ok_3d()),
                decreases z_sz - p,
            {
                proof {
                    lemma_idx3(m as int, n as int, p as int, x_sz as int, y_sz as int, z_sz as int);
                    lemma_idx3(m as int, n as int + 1, p as int, x_sz as int, y_sz as int, z_sz as int);
                    lemma_idx3(m as int + 1, n as int, p as int, x_sz as int, y_sz as int, z_sz as int);
                }
                let k = (m * y_sz + n) * z_sz + p;
                let v = upd3(
                    g.chzh[k],
                    g.hz[k],
                    g.chze[k],
                    g.ex[k + z_sz],
                    g.ex[k],
                    g.ey[k + yz],
                    g.ey[k],
                );
                g.hz[k] = v;
                p += 1;
            }
            proof {
                lemma_idx3(m as int, n as int, 0, x_sz as int, y_sz as int, z_sz as int);
            }
            n += 1;
        }
        proof {
            lemma_idx2(m as int, y_sz as int - 1, x_sz as int, y_sz as int);
            let q = m as int * y_sz + (y_sz - 1);
            assert forall|k: int| q * z_sz <= k < (q + 1) * z_sz implies !hz_valid_3d(
                old(g)@,
                k,
            ) by {
                lemma_row_range(q, z_sz as int, k);
            }
            assert((q + 1) * z_sz == ((m as int + 1) * y_sz) * z_sz);
            assert(((m as int + 1) * y_sz) * z_sz <= x_sz * y_sz * z_sz) by (nonlinear_arith)
                requires m as int + 1 <= x_sz, 0 <= y_sz, 0 <= z_sz;
            assert((q + 1) * z_sz == q * z_sz + z_sz) by (nonlinear_arith);
        }
        m += 1;
    }

    proof {
        assert forall|k: int| ((x_sz as int - 1) * y_sz) * z_sz <= k < len implies !hz_valid_3d(
            old(g)@,
            k,
        ) by {
            assert(k + y_sz * z_sz >= x_sz * y_sz * z_sz) by (nonlinear_arith)
                requires
                    k >= ((x_sz as int - 1) * y_sz) * z_sz,
                    1 <= x_sz && 1 <= y_sz && 1 <= z_sz,
            ;
        }
        assert(g@.hz =~= hz_after_3d(old(g)@));
        assert(g@ =~= magnetic_3d_spec(old(g)@));
    }
}

spec fn ex3_partial(go: GridView, gc: GridView, pr: int, z: bool) -> bool {
    &&& forall|k: int| 0 <= k < pr && ex_valid_3d(go, k) ==> gc.ex[k] == ex_next_3d(go, k)
    &&& forall|k: int| 0 <= k < pr && !ex_valid_3d(go, k) ==> gc.ex[k] == go.ex[k]
    &&& forall|k: int| pr <= k < gc.ex.len() ==> gc.ex[k] == go.ex[k]
    &&& z ==> forall|k: int| 0 <= k < pr ==> gc.ex[k] == F_ZERO
}

spec fn ey3_partial(go: GridView, gc: GridView, pr: int, z: bool) -> bool {
    &&& forall|k: int| 0 <= k < pr && ey_valid_3d(go, k) ==> gc.ey[k] == ey_next_3d(go, k)
    &&& forall|k: int| 0 <= k < pr && !ey_valid_3d(go, k) ==> gc.ey[k] == go.ey[k]
    &&& forall|k: int| pr <= k < gc.ey.len() ==> gc.ey[k] == go.ey[k]
    &&& z ==> forall|k: int| 0 <= k < pr ==> gc.ey[k] == F_ZERO
}

spec fn ez3_partial(go: GridView, gc: GridView, pr: int, z: bool) -> bool {
    &&& forall|k: int| 0 <= k < pr && ez_valid_3d(go, k) ==> gc.ez[k] == ez_next_3d(go, k)
    &&& forall|k: int| 0 <= k < pr && !ez_valid_3d(go, k) ==> gc.ez[k] == go.ez[k]
    &&& forall|k: int| pr <= k < gc.ez.len() ==> gc.ez[k] == go.ez[k]
    &&& z ==> forall|k: int| 0 <= k < pr ==> gc.ez[k] == F_ZERO
}

/// One 3D electric half-step, in place.
#[verifier::rlimit(50)]
pub fn electric_3d(g: &mut Grid)
    requires
        old(g)@.wf_3d(),
        old(g)@.x_sz >= 1,
        old(g)@.y_sz >= 1,
        old(g)@.z_sz >= 1,
    ensures
        final(g)@ == electric_3d_spec(old(g)@),
        old(g)@.zero_3d() && old(g)@.coeffs_ok_3d() ==> final(g)@.zero_3d(),
{
    let ghost zf: bool = old(g)@.zero_3d() && old(g)@.coeffs_ok_3d();
    let x_sz = g.x_sz;
    let y_sz = g.y_sz;
    let z_sz = g.z_sz;
    let len = g.ex.len();
    proof {
        assert(y_sz * z_sz <= x_sz * y_sz * z_sz) by (nonlinear_arith)
            requires 1 <= x_sz, 0 <= y_sz, 0 <= z_sz;
    }
    let yz = y_sz * z_sz;

    // ex: m in [0,x), n in [1,y), p in [1,z).
    proof {
        assert((0 * y_sz) * z_sz == 0) by (nonlinear_arith);
    }
    let mut m: usize = 0;
    while m < x_sz
        invariant
            old(g)@.wf_3d(),
            x_sz == old(g)@.x_sz,
            y_sz == old(g)@.y_sz,
            z_sz == old(g)@.z_sz,
            1 <= x_sz && 1 <= y_sz && 1 <= z_sz,
            len == x_sz * y_sz * z_sz,
            yz == y_sz * z_sz,
            0 <= m <= x_sz,
            frame(g@, old(g)@, false, false, false, true, false, false),
            ex3_partial(old(g)@, g@, (m * y_sz) * z_sz, zf),
            zf == (old(g)@.zero_3d() && old(g)@.coeffs_ok_3d()),
        decreases x_sz - m,
    {
        proof {
            lemma_idx2(m as int, 0, x_sz as int, y_sz as int);
            let q = m as int * y_sz;
            assert forall|k: int| q * z_sz <= k < (q + 1) * z_sz implies !ex_valid_3d(
                old(g)@,
                k,
            ) by {
                lemma_row_range(q, z_sz as int, k);
            }
            assert((q + 1) * z_sz == q * z_sz + z_sz) by (nonlinear_arith);
            assert((q + 1) * z_sz <= x_sz * y_sz * z_sz) by (nonlinear_arith)
                requires q == m as int * y_sz, (m as int) < x_sz, 1 <= y_sz, 0 <= z_sz;
        }
        let mut n: usize = 1;
        while n < y_sz
            invariant
                old(g)@.wf_3d(),
                x_sz == old(g)@.x_sz,
                y_sz == old(g)@.y_sz,
                z_sz == old(g)@.z_sz,
                1 <= x_sz && 1 <= y_sz && 1 <= z_sz,
                len == x_sz * y_sz * z_sz,
                yz == y_sz * z_sz,
                0 <= m < x_sz,
                1 <= n <= y_sz,
                frame(g@, old(g)@, false, false, false, true, false, false),
                ex3_partial(old(g)@, g@, (m * y_sz + n) * z_sz, zf),
                zf == (old(g)@.zero_3d() && old(g)@.coeffs_ok_3d()),
            decreases y_sz - n,
        {
            proof {
                lemma_idx3(m as int, n as int, 0, x_sz as int, y_sz as int, z_sz as int);
            }
            let mut p: usize = 1;
            while p < z_sz
                invariant
                    old(g)@.wf_3d(),
                    x_sz == old(g)@.x_sz,
                    y_sz == old(g)@.y_sz,
                    z_sz == old(g)@.z_sz,
                    1 <= x_sz && 1 <= y_sz && 1 <= z_sz,
                    len == x_sz * y_sz * z_sz,
                    yz == y_sz * z_sz,
                    0 <= m < x_sz,
                    1 <= n < y_sz,
                    1 <= p <= z_sz,
                    frame(g@, old(g)@, false, false, false, true, false, false),
                    ex3_partial(old(g)@, g@, (m * y_sz + n) * z_sz + p, zf),
                    zf == (old(g)@.zero_3d() && old(g)@.coeffs_ok_3d()),
                decreases z_sz - p,
            {
                proof {
                    lemma_idx3(m as int, n as int, p as int, x_sz as int, y_sz as int, z_sz as int);
                    lemma_idx3(m as int, n as int - 1, p as int, x_sz as int, y_sz as int, z_sz as int);
                }
                let k = (m * y_sz + n) * z_sz + p;
                let v = upd3(
                    g.cexe[k],
                    g.ex[k],
                    g.cexh[k],
                    g.hz[k],
                    g.hz[k - z_sz],
                    g.hy[k],
                    g.hy[k - 1],
                );
                g.ex[k] = v;
                p += 1;
            }
            proof {
                lemma_idx3(m as int, n as int, 0, x_sz as int, y_sz as int, z_sz as int);
            }
            n += 1;
        }
        proof {
            lemma_idx2(m as int, 0, x_sz as int, y_sz as int);
            assert((m as int * y_sz + y_sz) * z_sz == ((m as int + 1) * y_sz) * z_sz);
        }
        m += 1;
    }

    proof {
        assert(g@.ex =~= ex_after_3d(old(g)@));
    }

    // ey: m in [1,x), n in [0,y), p in [1,z).
    let mut m: usize = 1;
    while m < x_sz
        invariant
            old(g)@.wf_3d(),
            x_sz == old(g)@.x_sz,
            y_sz == old(g)@.y_sz,
            z_sz == old(g)@.z_sz,
            1 <= x_sz && 1 <= y_sz && 1 <= z_sz,
            len == x_sz * y_sz * z_sz,
            yz == y_sz * z_sz,
            1 <= m <= x_sz,
            frame(g@, old(g)@, false, false, false, true, true, false),
            g@.ex =~= ex_after_3d(old(g)@),
            zf ==> forall|k: int| 0 <= k < g@.ex.len() ==> g@.ex[k] == F_ZERO,
            ey3_partial(old(g)@, g@, (m * y_sz) * z_sz, zf),
            zf == (old(g)@.zero_3d() && old(g)@.coeffs_ok_3d()),
        decreases x_sz - m,
    {
        let mut n: usize = 0;
        while n < y_sz
            invariant
                old(g)@.wf_3d(),
                x_sz == old(g)@.x_sz,
                y_sz == old(g)@.y_sz,
                z_sz == old(g)@.z_sz,
                1 <= x_sz && 1 <= y_sz && 1 <= z_sz,
                len == x_sz * y_sz * z_sz,
                yz == y_sz * z_sz,
                1 <= m < x_sz,
                0 <= n <= y_sz,
                frame(g@, old(g)@, false, false, false, true, true, false),
                g@.ex =~= ex_after_3d(old(g)@),
                zf ==> forall|k: int| 0 <= k < g@.ex.len() ==> g@.ex[k] == F_ZERO,
                ey3_partial(old(g)@, g@, (m * y_sz + n) * z_sz, zf),
                zf == (old(g)@.zero_3d() && old(g)@.coeffs_ok_3d()),
            decreases y_sz - n,
        {
            proof {
                lemma_idx3(m as int, n as int, 0, x_sz as int, y_sz as int, z_sz as int);
            }
            let mut p: usize = 1;
            while p < z_sz
                invariant
                    old(g)@.wf_3d(),
                    x_sz == old(g)@.x_sz,
                    y_sz == old(g)@.y_sz,
                    z_sz == old(g)@.z_sz,
                    1 <= x_sz && 1 <= y_sz && 1 <= z_sz,
                    len == x_sz * y_sz * z_sz,
                    yz == y_sz * z_sz,
                    1 <= m < x_sz,
                    0 <= n < y_sz,
                    1 <= p <= z_sz,
                    frame(g@, old(g)@, false, false, false, true, true, false),
                    g@.ex =~= ex_after_3d(old(g)@),
                    zf ==> forall|k: int| 0 <= k < g@.ex.len() ==> g@.ex[k] == F_ZERO,
                    ey3_partial(old(g)@, g@, (m * y_sz + n) * z_sz + p, zf),
                    zf == (old(g)@.zero_3d() && old(g)@.coeffs_ok_3d()),
                decreases z_sz - p,
            {
                proof {
                    lemma_idx3(m as int, n as int, p as int, x_sz as int, y_sz as int, z_sz as int);
                    lemma_idx3(m as int - 1, n as int, p as int, x_sz as int, y_sz as int, z_sz as int);
                }
                let k = (m * y_sz + n) * z_sz + p;
                let v = upd3(
                    g.ceye[k],
                    g.ey[k],
                    g.ceyh[k],
                    g.hx[k],
                    g.hx[k - 1],
                    g.hz[k],
                    g.hz[k - yz],
                );
                g.ey[k] = v;
                p += 1;
            }
            proof {
                lemma_idx3(m as int, n as int, 0, x_sz as int, y_sz as int, z_sz as int);
            }
            n += 1;
        }
        proof {
            lemma_idx2(m as int, 0, x_sz as int, y_sz as int);
            assert((m as int * y_sz + y_sz) * z_sz == ((m as int + 1) * y_sz) * z_sz);
        }
        m += 1;
    }

    proof {
        assert(forall|k: int| 0 <= k < y_sz * z_sz ==> !ey_valid_3d(old(g)@, k));
        assert(g@.ey =~= ey_after_3d(old(g)@));
    }

    // ez: m in [1,x), n in [1,y), p in [0,z).
    let mut m: usize = 1;
    while m < x_sz
        invariant
            old(g)@.wf_3d(),
            x_sz == old(g)@.x_sz,
            y_sz == old(g)@.y_sz,
            z_sz == old(g)@.z_sz,
            1 <= x_sz && 1 <= y_sz && 1 <= z_sz,
            len == x_sz * y_sz * z_sz,
            yz == y_sz * z_sz,
            1 <= m <= x_sz,
            frame(g@, old(g)@, false, false, false, true, true, true),
            g@.ex =~= ex_after_3d(old(g)@),
            g@.ey =~= ey_after_3d(old(g)@),
            zf ==> forall|k: int| 0 <= k < g@.ex.len() ==> g@.ex[k] == F_ZERO,
            zf ==> forall|k: int| 0 <= k < g@.ey.len() ==> g@.ey[k] == F_ZERO,
            ez3_partial(old(g)@, g@, (m * y_sz) * z_sz, zf),
            zf == (old(g)@.zero_3d() && old(g)@.coeffs_ok_3d()),
        decreases x_sz - m,
    {
        proof {
            lemma_idx2(m as int, 0, x_sz as int, y_sz as int);
            let q = m as int * y_sz;
            assert forall|k: int| q * z_sz <= k < (q + 1) * z_sz implies !ez_valid_3d(
                old(g)@,
                k,
            ) by {
                lemma_row_range(q, z_sz as int, k);
            }
            assert((q + 1) * z_sz == q * z_sz + z_sz) by (nonlinear_arith);
            assert((q + 1) * z_sz <= x_sz * y_sz * z_sz) by (nonlinear_arith)
                requires q == m as int * y_sz, (m as int) < x_sz, 1 <= y_sz, 0 <= z_sz;
        }
        let mut n: usize = 1;
        while n < y_sz
            invariant
                old(g)@.wf_3d(),
                x_sz == old(g)@.x_sz,
                y_sz == old(g)@.y_sz,
                z_sz == old(g)@.z_sz,
                1 <= x_sz && 1 <= y_sz && 1 <= z_sz,
                len == x_sz * y_sz * z_sz,
                yz == y_sz * z_sz,
                1 <= m < x_sz,
                1 <= n <= y_sz,
                frame(g@, old(g)@, false, false, false, true, true, true),
                g@.ex =~= ex_after_3d(old(g)@),
                g@.ey =~= ey_after_3d(old(g)@),
                zf ==> forall|k: int| 0 <= k < g@.ex.len() ==> g@.ex[k] == F_ZERO,
                zf ==> forall|k: int| 0 <= k < g@.ey.len() ==> g@.ey[k] == F_ZERO,
                ez3_partial(old(g)@, g@, (m * y_sz + n) * z_sz, zf),
                zf == (old(g)@.zero_3d() && old(g)@.coeffs_ok_3d()),
            decreases y_sz - n,
        {
            let mut p: usize = 0;
            while p < z_sz
                invariant
                    old(g)@.wf_3d(),
                    x_sz == old(g)@.x_sz,
                    y_sz == old(g)@.y_sz,
                    z_sz == old(g)@.z_sz,
                    1 <= x_sz && 1 <= y_sz && 1 <= z_sz,
                    len == x_sz * y_sz * z_sz,
                    yz == y_sz * z_sz,
                    1 <= m < x_sz,
                    1 <= n < y_sz,
                    0 <= p <= z_sz,
                    frame(g@, old(g)@, false, false, false, true, true, true),
                    g@.ex =~= ex_after_3d(old(g)@),
                    g@.ey =~= ey_after_3d(old(g)@),
                    zf ==> forall|k: int| 0 <= k < g@.ex.len() ==> g@.ex[k] == F_ZERO,
                    zf ==> forall|k: int| 0 <= k < g@.ey.len() ==> g@.ey[k] == F_ZERO,
                    ez3_partial(old(g)@, g@, (m * y_sz + n) * z_sz + p, zf),
                    zf == (old(g)@.zero_3d() && old(g)@.coeffs_ok_3d()),
                decreases z_sz - p,
            {
                proof {
                    lemma_idx3(m as int, n as int, p as int, x_sz as int, y_sz as int, z_sz as int);
                    lemma_idx3(m as int - 1, n as int, p as int, x_sz as int, y_sz as int, z_sz as int);
                    lemma_idx3(m as int, n as int - 1, p as int, x_sz as int, y_sz as int, z_sz as int);
                }
                let k = (m * y_sz + n) * z_sz + p;
                let v = upd3(
                    g.ceze[k],
                    g.ez[k],
                    g.cezh[k],
                    g.hy[k],
                    g.hy[k - yz],
                    g.hx[k],
                    g.hx[k - z_sz],
                );
                g.ez[k] = v;
                p += 1;
            }
            proof {
                lemma_idx3(m as int, n as int, 0, x_sz as int, y_sz as int, z_sz as int);
            }
            n += 1;
        }
        proof {
            lemma_idx2(m as int, 0, x_sz as int, y_sz as int);
            assert((m as int * y_sz + y_sz) * z_sz == ((m as int + 1) * y_sz) * z_sz);
        }
        m += 1;
    }

    proof {
        assert(forall|k: int| 0 <= k < y_sz * z_sz ==> !ez_valid_3d(old(g)@, k));
        assert(g@.ez =~= ez_after_3d(old(g)@));
        assert(g@ =~= electric_3d_spec(old(g)@));
    }
}

} // verus!
