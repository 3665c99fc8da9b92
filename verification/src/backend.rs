//! The array-compute adapter: marshals a grid's flat arrays to the compute
//! side and the updated field arrays back, checking shapes explicitly.
//!
//! The compute side here is an in-process mirror evaluated by the same
//! verified stencils, standing where an external accelerator context would.
//! Transfers fail with `BackendTransferFailure` when the array shapes
//! disagree with the declared extents; nothing is truncated or reordered.

use vstd::prelude::*;
use crate::error::FDTDError;
use crate::grid::{Grid, GridView};
use crate::fdtd::{GridDimension, grid_wf, wf_check};

verus! {

/// The compute context of the accelerated backend. The in-process evaluator
/// needs no device state, so creating it always succeeds.
pub struct BackendContext {}

impl BackendContext {
    /// Creates the compute context.
    pub fn new() -> (r: Result<BackendContext, FDTDError>)
        ensures
            r is Ok,
    {
        Ok(BackendContext {  })
    }
}

/// An element-for-element copy of one array, made for a transfer.
fn dup_vec(src: &Vec<u64>) -> (r: Vec<u64>)
    ensures
        r@ =~= src@,
{
    let n = src.len();
    let mut v: Vec<u64> = Vec::new();
    let mut i: usize = 0;
    while i < n
        invariant
            0 <= i <= n,
            n == src@.len(),
            v@.len() == i,
            forall|j: int| 0 <= j < i ==> v@[j] == src@[j],
        decreases n - i,
    {
        v.push(src[i]);
        i += 1;
    }
    proof {
        assert(v@ =~= src@);
    }
    v
}

/// Writes a transferred array back over an existing one of the same length.
fn copy_into(dst: &mut Vec<u64>, src: &Vec<u64>)
    requires
        old(dst)@.len() == src@.len(),
    ensures
        final(dst)@ =~= src@,
{
    let n = src.len();
    let mut i: usize = 0;
    while i < n
        invariant
            0 <= i <= n,
            n == src@.len(),
            dst@.len() == src@.len(),
            forall|j: int| 0 <= j < i ==> dst@[j] == src@[j],
        decreases n - i,
    {
        dst[i] = src[i];
        i += 1;
    }
    proof {
        assert(dst@ =~= src@);
    }
}

/// Marshals the whole grid to the compute side, failing explicitly when the
/// array shapes disagree with the grid's rank and extents.
pub fn upload(dim: GridDimension, g: &Grid) -> (r: Result<Grid, FDTDError>)
    ensures
        match r {
            Result::Ok(d) => grid_wf(dim, g@) && d@ == g@,
            Result::Err(e) => e == FDTDError::BackendTransferFailure && !grid_wf(dim, g@),
        },
{
    if !wf_check(dim, g) {
        return Err(FDTDError::BackendTransferFailure);
    }
    let d = Grid {
        x_sz: g.x_sz,
        y_sz: g.y_sz,
        z_sz: g.z_sz,
        hx: dup_vec(&g.hx),
        chxh: dup_vec(&g.chxh),
        chxe: dup_vec(&g.chxe),
        hy: dup_vec(&g.hy),
        chyh: dup_vec(&g.chyh),
        chye: dup_vec(&g.chye),
        hz: dup_vec(&g.hz),
        chzh: dup_vec(&g.chzh),
        chze: dup_vec(&g.chze),
        ex: dup_vec(&g.ex),
        cexe: dup_vec(&g.cexe),
        cexh: dup_vec(&g.cexh),
        ey: dup_vec(&g.ey),
        ceye: dup_vec(&g.ceye),
        ceyh: dup_vec(&g.ceyh),
        ez: dup_vec(&g.ez),
        ceze: dup_vec(&g.ceze),
        cezh: dup_vec(&g.cezh),
        cdtds: g.cdtds,
    };
    proof {
        assert(d@ =~= g@);
    }
    Ok(d)
}

/// Marshals the magnetic field arrays of the grid's rank back from the
/// compute side.
pub fn download_magnetic(dim: GridDimension, g: &mut Grid, d: &Grid)
    requires
        old(g)@.hx.len() == d@.hx.len(),
        old(g)@.hy.len() == d@.hy.len(),
        old(g)@.hz.len() == d@.hz.len(),
    ensures
        final(g)@ == (match dim {
            GridDimension::One => GridView { hy: d@.hy, ..old(g)@ },
            GridDimension::Two(_) => GridView { hx: d@.hx, hy: d@.hy, ..old(g)@ },
            GridDimension::Three => GridView { hx: d@.hx, hy: d@.hy, hz: d@.hz, ..old(g)@ },
        }),
{
    match dim {
        GridDimension::One => {
            copy_into(&mut g.hy, &d.hy);
        },
        GridDimension::Two(_) => {
            copy_into(&mut g.hx, &d.hx);
            copy_into(&mut g.hy, &d.hy);
        },
        GridDimension::Three => {
            copy_into(&mut g.hx, &d.hx);
            copy_into(&mut g.hy, &d.hy);
            copy_into(&mut g.hz, &d.hz);
        },
    }
    proof {
        assert(g@ =~= (match dim {
            GridDimension::One => GridView { hy: d@.hy, ..old(g)@ },
            GridDimension::Two(_) => GridView { hx: d@.hx, hy: d@.hy, ..old(g)@ },
            GridDimension::Three => GridView { hx: d@.hx, hy: d@.hy, hz: d@.hz, ..old(g)@ },
        }));
    }
}

/// Marshals the electric field arrays of the grid's rank back from the
/// compute side.
pub fn download_electric(dim: GridDimension, g: &mut Grid, d: &Grid)
    requires
        old(g)@.ex.len() == d@.ex.len(),
        old(g)@.ey.len() == d@.ey.len(),
        old(g)@.ez.len() == d@.ez.len(),
    ensures
        final(g)@ == (match dim {
            GridDimension::One => GridView { ez: d@.ez, ..old(g)@ },
            GridDimension::Two(_) => GridView { ez: d@.ez, ..old(g)@ },
            GridDimension::Three => GridView { ex: d@.ex, ey: d@.ey, ez: d@.ez, ..old(g)@ },
        }),
{
    match dim {
        GridDimension::One => {
            copy_into(&mut g.ez, &d.ez);
        },
        GridDimension::Two(_) => {
            copy_into(&mut g.ez, &d.ez);
        },
        GridDimension::Three => {
            copy_into(&mut g.ex, &d.ex);
            copy_into(&mut g.ey, &d.ey);
            copy_into(&mut g.ez, &d.ez);
        },
    }
    proof {
        assert(g@ =~= (match dim {
            GridDimension::One => GridView { ez: d@.ez, ..old(g)@ },
            GridDimension::Two(_) => GridView { ez: d@.ez, ..old(g)@ },
            GridDimension::Three => GridView { ex: d@.ex, ey: d@.ey, ez: d@.ez, ..old(g)@ },
        }));
    }
}

} // verus!
