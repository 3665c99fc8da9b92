//! The grid data model: field arrays, coefficient arrays and dimensions.
//!
//! A grid owns one flat, row-major array per field component and per update
//! coefficient; the flattening order is `((x * y_sz) + y) * z_sz + z`, which
//! reduces to `x * y_sz + y` for a 2D grid and to `x` for a 1D grid. Arrays
//! of components that the grid's rank does not use stay empty and are never
//! read.

use vstd::prelude::*;
use crate::error::FDTDError;
use crate::num::{F_ZERO, F_ONE, is_nan, is_inf, is_nonneg_finite, val_eq, div_bits, mul_bits, f_div, f_mul};

verus! {

/// Bit pattern of 377.0, the characteristic impedance of free space used to
/// normalize the default update coefficients.
pub const IMP0: u64 = 0x4077900000000000;

/// Bit pattern of `1/sqrt(2)`, the default Courant number of a 2D grid.
pub const INV_SQRT2: u64 = 0x3fe6a09e667f3bcc;

/// Bit pattern of `1/sqrt(3)`, the default Courant number of a 3D grid.
pub const INV_SQRT3: u64 = 0x3fe279a74590331d;

/// The discretized spatial domain at one instant: per-component field and
/// coefficient arrays plus the grid extents. Every value is an IEEE 754
/// double carried as its bit pattern.
#[derive(Clone, PartialEq)]
pub struct Grid {
    pub x_sz: usize,
    pub y_sz: usize,
    pub z_sz: usize,

    pub hx: Vec<u64>,
    pub chxh: Vec<u64>,
    pub chxe: Vec<u64>,

    pub hy: Vec<u64>,
    pub chyh: Vec<u64>,
    pub chye: Vec<u64>,

    pub hz: Vec<u64>,
    pub chzh: Vec<u64>,
    pub chze: Vec<u64>,

    pub ex: Vec<u64>,
    pub cexe: Vec<u64>,
    pub cexh: Vec<u64>,

    pub ey: Vec<u64>,
    pub ceye: Vec<u64>,
    pub ceyh: Vec<u64>,

    pub ez: Vec<u64>,
    pub ceze: Vec<u64>,
    pub cezh: Vec<u64>,

    pub cdtds: u64,
}

/// The mathematical model of a grid: each array as a sequence of bit
/// patterns.
#[verifier::ext_equal]
pub struct GridView {
    pub x_sz: nat,
    pub y_sz: nat,
    pub z_sz: nat,

    pub hx: Seq<u64>,
    pub chxh: Seq<u64>,
    pub chxe: Seq<u64>,

    pub hy: Seq<u64>,
    pub chyh: Seq<u64>,
    pub chye: Seq<u64>,

    pub hz: Seq<u64>,
    pub chzh: Seq<u64>,
    pub chze: Seq<u64>,

    pub ex: Seq<u64>,
    pub cexe: Seq<u64>,
    pub cexh: Seq<u64>,

    pub ey: Seq<u64>,
    pub ceye: Seq<u64>,
    pub ceyh: Seq<u64>,

    pub ez: Seq<u64>,
    pub ceze: Seq<u64>,
    pub cezh: Seq<u64>,

    pub cdtds: u64,
}

impl View for Grid {
    type V = GridView;

    open spec fn view(&self) -> GridView {
        GridView {
            x_sz: self.x_sz as nat,
            y_sz: self.y_sz as nat,
            z_sz: self.z_sz as nat,
            hx: self.hx@,
            chxh: self.chxh@,
            chxe: self.chxe@,
            hy: self.hy@,
            chyh: self.chyh@,
            chye: self.chye@,
            hz: self.hz@,
            chzh: self.chzh@,
            chze: self.chze@,
            ex: self.ex@,
            cexe: self.cexe@,
            cexh: self.cexh@,
            ey: self.ey@,
            ceye: self.ceye@,
            ceyh: self.ceyh@,
            ez: self.ez@,
            ceze: self.ceze@,
            cezh: self.cezh@,
            cdtds: self.cdtds,
        }
    }
}

impl GridView {
    /// The arrays a 1D grid reads all have length `x_sz`.
    pub open spec fn wf_1d(self) -> bool {
        &&& self.hy.len() == self.x_sz
        &&& self.chyh.len() == self.x_sz
        &&& self.chye.len() == self.x_sz
        &&& self.ez.len() == self.x_sz
        &&& self.ceze.len() == self.x_sz
        &&& self.cezh.len() == self.x_sz
    }

    /// The arrays a 2D grid reads all have length `x_sz * y_sz`.
    pub open spec fn wf_2d(self) -> bool {
        &&& self.hx.len() == self.x_sz * self.y_sz
        &&& self.chxh.len() == self.x_sz * self.y_sz
        &&& self.chxe.len() == self.x_sz * self.y_sz
        &&& self.hy.len() == self.x_sz * self.y_sz
        &&& self.chyh.len() == self.x_sz * self.y_sz
        &&& self.chye.len() == self.x_sz * self.y_sz
        &&& self.ez.len() == self.x_sz * self.y_sz
        &&& self.ceze.len() == self.x_sz * self.y_sz
        &&& self.cezh.len() == self.x_sz * self.y_sz
    }

    /// The arrays a 3D grid reads all have length `x_sz * y_sz * z_sz`.
    pub open spec fn wf_3d(self) -> bool {
        &&& self.hx.len() == self.x_sz * self.y_sz * self.z_sz
        &&& self.chxh.len() == self.x_sz * self.y_sz * self.z_sz
        &&& self.chxe.len() == self.x_sz * self.y_sz * self.z_sz
        &&& self.hy.len() == self.x_sz * self.y_sz * self.z_sz
        &&& self.chyh.len() == self.x_sz * self.y_sz * self.z_sz
        &&& self.chye.len() == self.x_sz * self.y_sz * self.z_sz
        &&& self.hz.len() == self.x_sz * self.y_sz * self.z_sz
        &&& self.chzh.len() == self.x_sz * self.y_sz * self.z_sz
        &&& self.chze.len() == self.x_sz * self.y_sz * self.z_sz
        &&& self.ex.len() == self.x_sz * self.y_sz * self.z_sz
        &&& self.cexe.len() == self.x_sz * self.y_sz * self.z_sz
        &&& self.cexh.len() == self.x_sz * self.y_sz * self.z_sz
        &&& self.ey.len() == self.x_sz * self.y_sz * self.z_sz
        &&& self.ceye.len() == self.x_sz * self.y_sz * self.z_sz
        &&& self.ceyh.len() == self.x_sz * self.y_sz * self.z_sz
        &&& self.ez.len() == self.x_sz * self.y_sz * self.z_sz
        &&& self.ceze.len() == self.x_sz * self.y_sz * self.z_sz
        &&& self.cezh.len() == self.x_sz * self.y_sz * self.z_sz
    }

    /// Same extents and same array lengths; hooks must preserve this.
    pub open spec fn same_shape(self, o: GridView) -> bool {
        &&& self.x_sz == o.x_sz
        &&& self.y_sz == o.y_sz
        &&& self.z_sz == o.z_sz
        &&& self.hx.len() == o.hx.len()
        &&& self.chxh =~= o.chxh
        &&& self.chxe =~= o.chxe
        &&& self.hy.len() == o.hy.len()
        &&& self.chyh =~= o.chyh
        &&& self.chye =~= o.chye
        &&& self.hz.len() == o.hz.len()
        &&& self.chzh =~= o.chzh
        &&& self.chze =~= o.chze
        &&& self.ex.len() == o.ex.len()
        &&& self.cexe =~= o.cexe
        &&& self.cexh =~= o.cexh
        &&& self.ey.len() == o.ey.len()
        &&& self.ceye =~= o.ceye
        &&& self.ceyh =~= o.ceyh
        &&& self.ez.len() == o.ez.len()
        &&& self.ceze =~= o.ceze
        &&& self.cezh =~= o.cezh
        &&& self.cdtds == o.cdtds
    }

    /// All field samples a 1D grid reads encode positive zero.
    pub open spec fn zero_1d(self) -> bool {
        &&& forall|i: int| 0 <= i < self.hy.len() ==> self.hy[i] == F_ZERO
        &&& forall|i: int| 0 <= i < self.ez.len() ==> self.ez[i] == F_ZERO
    }

    /// All field samples a 2D grid reads encode positive zero.
    pub open spec fn zero_2d(self) -> bool {
        &&& forall|i: int| 0 <= i < self.hx.len() ==> self.hx[i] == F_ZERO
        &&& forall|i: int| 0 <= i < self.hy.len() ==> self.hy[i] == F_ZERO
        &&& forall|i: int| 0 <= i < self.ez.len() ==> self.ez[i] == F_ZERO
    }

    /// All field samples a 3D grid reads encode positive zero.
    pub open spec fn zero_3d(self) -> bool {
        &&& forall|i: int| 0 <= i < self.hx.len() ==> self.hx[i] == F_ZERO
        &&& forall|i: int| 0 <= i < self.hy.len() ==> self.hy[i] == F_ZERO
        &&& forall|i: int| 0 <= i < self.hz.len() ==> self.hz[i] == F_ZERO
        &&& forall|i: int| 0 <= i < self.ex.len() ==> self.ex[i] == F_ZERO
        &&& forall|i: int| 0 <= i < self.ey.len() ==> self.ey[i] == F_ZERO
        &&& forall|i: int| 0 <= i < self.ez.len() ==> self.ez[i] == F_ZERO
    }

    /// Every coefficient a 1D grid reads is finite with a cleared sign bit,
    /// the condition under which the update stencils map zero fields to zero.
    pub open spec fn coeffs_ok_1d(self) -> bool {
        &&& all_nonneg_finite(self.chyh)
        &&& all_nonneg_finite(self.chye)
        &&& all_nonneg_finite(self.ceze)
        &&& all_nonneg_finite(self.cezh)
    }

    /// Every coefficient a 2D grid reads is finite with a cleared sign bit.
    pub open spec fn coeffs_ok_2d(self) -> bool {
        &&& all_nonneg_finite(self.chxh)
        &&& all_nonneg_finite(self.chxe)
        &&& all_nonneg_finite(self.chyh)
        &&& all_nonneg_finite(self.chye)
        &&& all_nonneg_finite(self.ceze)
        &&& all_nonneg_finite(self.cezh)
    }

    /// Every coefficient a 3D grid reads is finite with a cleared sign bit.
    pub open spec fn coeffs_ok_3d(self) -> bool {
        &&& all_nonneg_finite(self.chxh)
        &&& all_nonneg_finite(self.chxe)
        &&& all_nonneg_finite(self.chyh)
        &&& all_nonneg_finite(self.chye)
        &&& all_nonneg_finite(self.chzh)
        &&& all_nonneg_finite(self.chze)
        &&& all_nonneg_finite(self.cexe)
        &&& all_nonneg_finite(self.cexh)
        &&& all_nonneg_finite(self.ceye)
        &&& all_nonneg_finite(self.ceyh)
        &&& all_nonneg_finite(self.ceze)
        &&& all_nonneg_finite(self.cezh)
    }
}

/// Every sample of the sequence is finite with a cleared sign bit.
pub open spec fn all_nonneg_finite(s: Seq<u64>) -> bool {
    forall|i: int| 0 <= i < s.len() ==> is_nonneg_finite(s[i])
}

/// Tolerant equality of two samples: any two infinities are equal, any two
/// NaNs are equal, and otherwise the values must compare equal as doubles.
pub open spec fn tol_eq(a: u64, b: u64) -> bool {
    ||| is_inf(a) && is_inf(b)
    ||| is_nan(a) && is_nan(b)
    ||| val_eq(a, b)
}

/// Pairwise tolerant equality over the indices both sequences have.
pub open spec fn seq_tol_eq(a: Seq<u64>, b: Seq<u64>) -> bool {
    forall|i: int| 0 <= i < a.len() && i < b.len() ==> tol_eq(a[i], b[i])
}

/// Tolerant equality of two grids: equal extents, pairwise tolerant equality
/// of every array, and numeric equality of the Courant numbers.
pub open spec fn grid_eq_spec(a: GridView, b: GridView) -> bool {
    &&& a.x_sz == b.x_sz
    &&& a.y_sz == b.y_sz
    &&& a.z_sz == b.z_sz
    &&& seq_tol_eq(a.hx, b.hx)
    &&& seq_tol_eq(a.chxh, b.chxh)
    &&& seq_tol_eq(a.chxe, b.chxe)
    &&& seq_tol_eq(a.hy, b.hy)
    &&& seq_tol_eq(a.chyh, b.chyh)
    &&& seq_tol_eq(a.chye, b.chye)
    &&& seq_tol_eq(a.hz, b.hz)
    &&& seq_tol_eq(a.chzh, b.chzh)
    &&& seq_tol_eq(a.chze, b.chze)
    &&& seq_tol_eq(a.ex, b.ex)
    &&& seq_tol_eq(a.cexe, b.cexe)
    &&& seq_tol_eq(a.cexh, b.cexh)
    &&& seq_tol_eq(a.ey, b.ey)
    &&& seq_tol_eq(a.ceye, b.ceye)
    &&& seq_tol_eq(a.ceyh, b.ceyh)
    &&& seq_tol_eq(a.ez, b.ez)
    &&& seq_tol_eq(a.ceze, b.ceze)
    &&& seq_tol_eq(a.cezh, b.cezh)
    &&& val_eq(a.cdtds, b.cdtds)
}

/// Tolerant equality of one pair of samples.
fn sample_tol_eq(a: u64, b: u64) -> (r: bool)
    ensures
        r == tol_eq(a, b),
{
    let a_abs = a & 0x7fffffffffffffff;
    let b_abs = b & 0x7fffffffffffffff;
    if a_abs == 0x7ff0000000000000 && b_abs == 0x7ff0000000000000 {
        true
    } else if a_abs > 0x7ff0000000000000 && b_abs > 0x7ff0000000000000 {
        true
    } else {
        (a == b && !(a_abs > 0x7ff0000000000000)) || (a_abs == 0 && b_abs == 0)
    }
}

/// Pairwise tolerant equality of two arrays over their shared indices.
fn vec_tol_eq(a: &Vec<u64>, b: &Vec<u64>) -> (r: bool)
    ensures
        r == seq_tol_eq(a@, b@),
{
    let n: usize = if a.len() < b.len() { a.len() } else { b.len() };
    let mut i: usize = 0;
    while i < n
        invariant
            0 <= i <= n,
            n == if a@.len() < b@.len() { a@.len() } else { b@.len() },
            forall|j: int| 0 <= j < i ==> tol_eq(a@[j], b@[j]),
        decreases n - i,
    {
        if !sample_tol_eq(a[i], b[i]) {
            return false;
        }
        i += 1;
    }
    true
}

/// Whether two grids are equal under tolerant equality: any two infinities
/// match, any two NaNs match, any other mismatch makes the grids unequal.
pub fn grid_eq(a: &Grid, b: &Grid) -> (r: bool)
    ensures
        r == grid_eq_spec(a@, b@),
{
    let dims = a.x_sz == b.x_sz && a.y_sz == b.y_sz && a.z_sz == b.z_sz;
    if !dims {
        return false;
    }
    let h = vec_tol_eq(&a.hx, &b.hx) && vec_tol_eq(&a.chxh, &b.chxh) && vec_tol_eq(&a.chxe, &b.chxe)
        && vec_tol_eq(&a.hy, &b.hy) && vec_tol_eq(&a.chyh, &b.chyh) && vec_tol_eq(&a.chye, &b.chye)
        && vec_tol_eq(&a.hz, &b.hz) && vec_tol_eq(&a.chzh, &b.chzh) && vec_tol_eq(&a.chze, &b.chze);
    let e = vec_tol_eq(&a.ex, &b.ex) && vec_tol_eq(&a.cexe, &b.cexe) && vec_tol_eq(&a.cexh, &b.cexh)
        && vec_tol_eq(&a.ey, &b.ey) && vec_tol_eq(&a.ceye, &b.ceye) && vec_tol_eq(&a.ceyh, &b.ceyh)
        && vec_tol_eq(&a.ez, &b.ez) && vec_tol_eq(&a.ceze, &b.ceze) && vec_tol_eq(&a.cezh, &b.cezh);
    let c_abs = a.cdtds & 0x7fffffffffffffff;
    let d_abs = b.cdtds & 0x7fffffffffffffff;
    let cd = (a.cdtds == b.cdtds && !(c_abs > 0x7ff0000000000000)) || (c_abs == 0 && d_abs == 0);
    h && e && cd
}

impl Default for Grid {
    /// The empty grid: no extents, no arrays, Courant number 1.0.
    fn default() -> (r: Self)
        ensures
            r@.x_sz == 0 && r@.y_sz == 0 && r@.z_sz == 0,
            r@.hx.len() == 0 && r@.chxh.len() == 0 && r@.chxe.len() == 0,
            r@.hy.len() == 0 && r@.chyh.len() == 0 && r@.chye.len() == 0,
            r@.hz.len() == 0 && r@.chzh.len() == 0 && r@.chze.len() == 0,
            r@.ex.len() == 0 && r@.cexe.len() == 0 && r@.cexh.len() == 0,
            r@.ey.len() == 0 && r@.ceye.len() == 0 && r@.ceyh.len() == 0,
            r@.ez.len() == 0 && r@.ceze.len() == 0 && r@.cezh.len() == 0,
            r@.cdtds == F_ONE,
    {
        Grid {
            x_sz: 0,
            y_sz: 0,
            z_sz: 0,
            hx: Vec::new(),
            chxh: Vec::new(),
            chxe: Vec::new(),
            hy: Vec::new(),
            chyh: Vec::new(),
            chye: Vec::new(),
            hz: Vec::new(),
            chzh: Vec::new(),
            chze: Vec::new(),
            ex: Vec::new(),
            cexe: Vec::new(),
            cexh: Vec::new(),
            ey: Vec::new(),
            ceye: Vec::new(),
            ceyh: Vec::new(),
            ez: Vec::new(),
            ceze: Vec::new(),
            cezh: Vec::new(),
            cdtds: F_ONE,
        }
    }
}

impl Grid {
    /// A vector of length `sz` filled with `value`.
    fn build_vec(sz: usize, value: u64) -> (r: Vec<u64>)
        ensures
            r@.len() == sz,
            forall|i: int| 0 <= i < sz ==> r@[i] == value,
    {
        let mut v: Vec<u64> = Vec::new();
        let mut i: usize = 0;
        while i < sz
            invariant
                0 <= i <= sz,
                v@.len() == i,
                forall|j: int| 0 <= j < i ==> v@[j] == value,
            decreases sz - i,
        {
            v.push(value);
            i += 1;
        }
        v
    }

    /// A new 1D grid of `x_sz` cells with free-space default coefficients:
    /// the self terms are 1.0 and the cross terms are the impedance-derived
    /// values `1/IMP0` (magnetic) and `IMP0` (electric).
    pub fn new_1d(x_sz: usize) -> (r: Self)
        ensures
            r@.x_sz == x_sz && r@.y_sz == 0 && r@.z_sz == 0,
            r@.wf_1d(),
            r@.zero_1d(),
            forall|i: int| 0 <= i < x_sz ==> r@.chyh[i] == F_ONE,
            forall|i: int| 0 <= i < x_sz ==> r@.chye[i] == div_bits(F_ONE, IMP0),
            forall|i: int| 0 <= i < x_sz ==> r@.ceze[i] == F_ONE,
            forall|i: int| 0 <= i < x_sz ==> r@.cezh[i] == IMP0,
            r@.hx.len() == 0 && r@.chxh.len() == 0 && r@.chxe.len() == 0,
            r@.hz.len() == 0 && r@.chzh.len() == 0 && r@.chze.len() == 0,
            r@.ex.len() == 0 && r@.cexe.len() == 0 && r@.cexh.len() == 0,
            r@.ey.len() == 0 && r@.ceye.len() == 0 && r@.ceyh.len() == 0,
            r@.cdtds == F_ONE,
    {
        let chye_val = f_div(F_ONE, IMP0);
        let mut g = Grid::default();
        g.x_sz = x_sz;
        g.hy = Grid::build_vec(x_sz, F_ZERO);
        g.chyh = Grid::build_vec(x_sz, F_ONE);
        g.chye = Grid::build_vec(x_sz, chye_val);
        g.ez = Grid::build_vec(x_sz, F_ZERO);
        g.ceze = Grid::build_vec(x_sz, F_ONE);
        g.cezh = Grid::build_vec(x_sz, IMP0);
        g
    }

    /// A new 2D grid of `x_sz * y_sz` cells with free-space default
    /// coefficients derived from the Courant number `cdtds`, which defaults
    /// to `1/sqrt(2)`.
    pub fn new_2d(x_sz: usize, y_sz: usize, cdtds: Option<u64>) -> (r: Self)
        requires
            x_sz * y_sz <= usize::MAX,
        ensures
            r@.x_sz == x_sz && r@.y_sz == y_sz && r@.z_sz == 0,
            r@.wf_2d(),
            r@.zero_2d(),
            r@.cdtds == (match cdtds {
                Option::Some(c) => c,
                Option::None => INV_SQRT2,
            }),
            forall|i: int| 0 <= i < x_sz * y_sz ==> r@.chxh[i] == F_ONE,
            forall|i: int| 0 <= i < x_sz * y_sz ==> r@.chxe[i] == div_bits(r@.cdtds, IMP0),
            forall|i: int| 0 <= i < x_sz * y_sz ==> r@.chyh[i] == F_ONE,
            forall|i: int| 0 <= i < x_sz * y_sz ==> r@.chye[i] == div_bits(F_ONE, IMP0),
            forall|i: int| 0 <= i < x_sz * y_sz ==> r@.ceze[i] == F_ONE,
            forall|i: int| 0 <= i < x_sz * y_sz ==> r@.cezh[i] == mul_bits(r@.cdtds, IMP0),
            r@.hz.len() == 0 && r@.chzh.len() == 0 && r@.chze.len() == 0,
            r@.ex.len() == 0 && r@.cexe.len() == 0 && r@.cexh.len() == 0,
            r@.ey.len() == 0 && r@.ceye.len() == 0 && r@.ceyh.len() == 0,
    {
        let len = x_sz * y_sz;
        let cd = match cdtds {
            Option::Some(c) => c,
            Option::None => INV_SQRT2,
        };
        let mut g = Grid::default();
        g.x_sz = x_sz;
        g.y_sz = y_sz;
        g.cdtds = cd;
        g.hx = Grid::build_vec(len, F_ZERO);
        g.chxh = Grid::build_vec(len, F_ONE);
        g.chxe = Grid::build_vec(len, f_div(cd, IMP0));
        g.hy = Grid::build_vec(len, F_ZERO);
        g.chyh = Grid::build_vec(len, F_ONE);
        g.chye = Grid::build_vec(len, f_div(F_ONE, IMP0));
        g.ez = Grid::build_vec(len, F_ZERO);
        g.ceze = Grid::build_vec(len, F_ONE);
        g.cezh = Grid::build_vec(len, f_mul(cd, IMP0));
        g
    }

    /// A new 3D grid of `x_sz * y_sz * z_sz` cells with free-space default
    /// coefficients derived from the Courant number `cdtds`, which defaults
    /// to `1/sqrt(3)`.
    pub fn new_3d(x_sz: usize, y_sz: usize, z_sz: usize, cdtds: Option<u64>) -> (r: Self)
        requires
            x_sz * y_sz <= usize::MAX,
            x_sz * y_sz * z_sz <= usize::MAX,
        ensures
            r@.x_sz == x_sz && r@.y_sz == y_sz && r@.z_sz == z_sz,
            r@.wf_3d(),
            r@.zero_3d(),
            r@.cdtds == (match cdtds {
                Option::Some(c) => c,
                Option::None => INV_SQRT3,
            }),
            forall|i: int| 0 <= i < x_sz * y_sz * z_sz ==> r@.chxh[i] == F_ONE
                && r@.chyh[i] == F_ONE && r@.chzh[i] == F_ONE
                && r@.cexe[i] == F_ONE && r@.ceye[i] == F_ONE && r@.ceze[i] == F_ONE,
            forall|i: int| 0 <= i < x_sz * y_sz * z_sz ==> r@.chxe[i] == div_bits(r@.cdtds, IMP0)
                && r@.chye[i] == div_bits(r@.cdtds, IMP0) && r@.chze[i] == div_bits(r@.cdtds, IMP0),
            forall|i: int| 0 <= i < x_sz * y_sz * z_sz ==> r@.cexh[i] == mul_bits(r@.cdtds, IMP0)
                && r@.ceyh[i] == mul_bits(r@.cdtds, IMP0) && r@.cezh[i] == mul_bits(r@.cdtds, IMP0),
    {
        let len = (x_sz * y_sz) * z_sz;
        let cd = match cdtds {
            Option::Some(c) => c,
            Option::None => INV_SQRT3,
        };
        let ch = f_div(cd, IMP0);
        let ce = f_mul(cd, IMP0);
        let mut g = Grid::default();
        g.x_sz = x_sz;
        g.y_sz = y_sz;
        g.z_sz = z_sz;
        g.cdtds = cd;
        g.hx = Grid::build_vec(len, F_ZERO);
        g.chxh = Grid::build_vec(len, F_ONE);
        g.chxe = Grid::build_vec(len, ch);
        g.hy = Grid::build_vec(len, F_ZERO);
        g.chyh = Grid::build_vec(len, F_ONE);
        g.chye = Grid::build_vec(len, ch);
        g.hz = Grid::build_vec(len, F_ZERO);
        g.chzh = Grid::build_vec(len, F_ONE);
        g.chze = Grid::build_vec(len, ch);
        g.ex = Grid::build_vec(len, F_ZERO);
        g.cexe = Grid::build_vec(len, F_ONE);
        g.cexh = Grid::build_vec(len, ce);
        g.ey = Grid::build_vec(len, F_ZERO);
        g.ceye = Grid::build_vec(len, F_ONE);
        g.ceyh = Grid::build_vec(len, ce);
        g.ez = Grid::build_vec(len, F_ZERO);
        g.ceze = Grid::build_vec(len, F_ONE);
        g.cezh = Grid::build_vec(len, ce);
        g
    }

    /// Replaces the electric update coefficients, rejecting arrays whose
    /// length differs from the electric field array's; on rejection the grid
    /// is unchanged.
    pub fn set_ez_coefficients(&mut self, ceze: Vec<u64>, cezh: Vec<u64>) -> (r: Result<(), FDTDError>)
        ensures
            match r {
                Result::Ok(()) => ceze@.len() == old(self)@.ez.len() && cezh@.len() == old(self)@.ez.len()
                    && *final(self) == (Grid { ceze, cezh, ..*old(self) }),
                Result::Err(e) => e == FDTDError::LengthMismatch
                    && !(ceze@.len() == old(self)@.ez.len() && cezh@.len() == old(self)@.ez.len())
                    && *final(self) == *old(self),
            },
    {
        if ceze.len() != self.ez.len() || cezh.len() != self.ez.len() {
            return Err(FDTDError::LengthMismatch);
        }
        self.ceze = ceze;
        self.cezh = cezh;
        Ok(())
    }

    /// Replaces the `hy` update coefficients, rejecting arrays whose length
    /// differs from the `hy` field array's; on rejection the grid is
    /// unchanged.
    pub fn set_hy_coefficients(&mut self, chyh: Vec<u64>, chye: Vec<u64>) -> (r: Result<(), FDTDError>)
        ensures
            match r {
                Result::Ok(()) => chyh@.len() == old(self)@.hy.len() && chye@.len() == old(self)@.hy.len()
                    && *final(self) == (Grid { chyh, chye, ..*old(self) }),
                Result::Err(e) => e == FDTDError::LengthMismatch
                    && !(chyh@.len() == old(self)@.hy.len() && chye@.len() == old(self)@.hy.len())
                    && *final(self) == *old(self),
            },
    {
        if chyh.len() != self.hy.len() || chye.len() != self.hy.len() {
            return Err(FDTDError::LengthMismatch);
        }
        self.chyh = chyh;
        self.chye = chye;
        Ok(())
    }

    /// Replaces the `hx` update coefficients, rejecting arrays whose length
    /// differs from the `hx` field array's; on rejection the grid is
    /// unchanged.
    pub fn set_hx_coefficients(&mut self, chxh: Vec<u64>, chxe: Vec<u64>) -> (r: Result<(), FDTDError>)
        ensures
            match r {
                Result::Ok(()) => chxh@.len() == old(self)@.hx.len() && chxe@.len() == old(self)@.hx.len()
                    && *final(self) == (Grid { chxh, chxe, ..*old(self) }),
                Result::Err(e) => e == FDTDError::LengthMismatch
                    && !(chxh@.len() == old(self)@.hx.len() && chxe@.len() == old(self)@.hx.len())
                    && *final(self) == *old(self),
            },
    {
        if chxh.len() != self.hx.len() || chxe.len() != self.hx.len() {
            return Err(FDTDError::LengthMismatch);
        }
        self.chxh = chxh;
        self.chxe = chxe;
        Ok(())
    }

    /// Reads the sample of a field array at one flat index, for external
    /// observation points.
    pub fn sample(v: &Vec<u64>, i: usize) -> (r: u64)
        requires
            i < v@.len(),
        ensures
            r == v@[i as int],
    {
        v[i]
    }
}

} // verus!
