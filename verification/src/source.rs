//! Source injection: hard and additive point sources and the
//! total-field/scattered-field corrections, as plain grid operations and as
//! step hooks.
//!
//! Each pulse hook keeps the current time as an encoded double and advances
//! it by exactly 1.0 per application, which is exact for any realistic step
//! count; the electric-field correction of the total-field/scattered-field
//! pair evaluates its pulse one whole step ahead, the two half-step offsets
//! of the leapfrog alignment combined.

use vstd::prelude::*;
use crate::grid::{Grid, GridView};
use crate::num::{F_ZERO, F_ONE, add_bits, sub_bits, div_bits, is_nonneg_finite, is_zero_val, f_add, f_sub, f_div};
use crate::ricker::{gaussian, gaussian_bits, ricker, ricker_bits};
use crate::fdtd::StepHook;

verus! {

/// Overwrites one electric field sample with a source value.
pub fn hard_source_ez(g: &mut Grid, m: usize, v: u64)
    requires
        m < old(g)@.ez.len(),
    ensures
        final(g)@ == (GridView { ez: old(g)@.ez.update(m as int, v), ..old(g)@ }),
{
    g.ez[m] = v;
    proof {
        assert(g@ =~= (GridView { ez: old(g)@.ez.update(m as int, v), ..old(g)@ }));
    }
}

/// Adds a source value to one electric field sample.
pub fn additive_source_ez(g: &mut Grid, m: usize, v: u64)
    requires
        m < old(g)@.ez.len(),
    ensures
        final(g)@ == (GridView {
            ez: old(g)@.ez.update(m as int, add_bits(old(g)@.ez[m as int], v)),
            ..old(g)@
        }),
{
    let s = f_add(g.ez[m], v);
    g.ez[m] = s;
    proof {
        assert(g@ =~= (GridView {
            ez: old(g)@.ez.update(m as int, add_bits(old(g)@.ez[m as int], v)),
            ..old(g)@
        }));
    }
}

/// Subtracts the incident contribution from one magnetic field sample, the
/// correction applied just inside a total-field/scattered-field interface.
pub fn tfsf_correct_hy(g: &mut Grid, m: usize, v: u64)
    requires
        m < old(g)@.hy.len(),
    ensures
        final(g)@ == (GridView {
            hy: old(g)@.hy.update(m as int, sub_bits(old(g)@.hy[m as int], v)),
            ..old(g)@
        }),
{
    let s = f_sub(g.hy[m], v);
    g.hy[m] = s;
    proof {
        assert(g@ =~= (GridView {
            hy: old(g)@.hy.update(m as int, sub_bits(old(g)@.hy[m as int], v)),
            ..old(g)@
        }));
    }
}

/// A hard source driving one electric field cell with a Gaussian pulse.
pub struct GaussianHardSource {
    pub idx: usize,
    pub delay: u64,
    pub width_sq: u64,
    pub t_bits: u64,
}

impl StepHook for GaussianHardSource {
    open spec fn pre(self, t: nat, g: GridView) -> bool {
        self.idx < g.ez.len()
    }

    open spec fn spec_apply(self, t: nat, g: GridView) -> (Self, GridView) {
        let v = gaussian_bits(self.t_bits, self.delay, self.width_sq);
        (
            GaussianHardSource { t_bits: add_bits(self.t_bits, F_ONE), ..self },
            GridView { ez: g.ez.update(self.idx as int, v), ..g },
        )
    }

    proof fn shape_lemma(self, t: nat, g: GridView) {
        assert(self.spec_apply(t, g).1.same_shape(g));
    }

    fn apply(&mut self, t: usize, g: &mut Grid) {
        let v = gaussian(self.t_bits, self.delay, self.width_sq);
        hard_source_ez(g, self.idx, v);
        self.t_bits = f_add(self.t_bits, F_ONE);
    }
}

/// An additive source driving one electric field cell with a Gaussian
/// pulse, coexisting with the physics at that cell.
pub struct GaussianAdditiveSource {
    pub idx: usize,
    pub delay: u64,
    pub width_sq: u64,
    pub t_bits: u64,
}

impl StepHook for GaussianAdditiveSource {
    open spec fn pre(self, t: nat, g: GridView) -> bool {
        self.idx < g.ez.len()
    }

    open spec fn spec_apply(self, t: nat, g: GridView) -> (Self, GridView) {
        let v = gaussian_bits(self.t_bits, self.delay, self.width_sq);
        (
            GaussianAdditiveSource { t_bits: add_bits(self.t_bits, F_ONE), ..self },
            GridView {
                ez: g.ez.update(self.idx as int, add_bits(g.ez[self.idx as int], v)),
                ..g
            },
        )
    }

    proof fn shape_lemma(self, t: nat, g: GridView) {
        assert(self.spec_apply(t, g).1.same_shape(g));
    }

    fn apply(&mut self, t: usize, g: &mut Grid) {
        let v = gaussian(self.t_bits, self.delay, self.width_sq);
        additive_source_ez(g, self.idx, v);
        self.t_bits = f_add(self.t_bits, F_ONE);
    }
}

/// The post-magnetic half of a 1D total-field/scattered-field pair:
/// subtracts the incident Gaussian pulse, scaled by the impedance, from the
/// magnetic field just inside the interface.
pub struct TfsfMagnetic1d {
    pub idx: usize,
    pub delay: u64,
    pub width_sq: u64,
    pub imp: u64,
    pub t_bits: u64,
}

impl StepHook for TfsfMagnetic1d {
    open spec fn pre(self, t: nat, g: GridView) -> bool {
        self.idx < g.hy.len()
    }

    open spec fn spec_apply(self, t: nat, g: GridView) -> (Self, GridView) {
        let v = div_bits(gaussian_bits(self.t_bits, self.delay, self.width_sq), self.imp);
        (
            TfsfMagnetic1d { t_bits: add_bits(self.t_bits, F_ONE), ..self },
            GridView {
                hy: g.hy.update(self.idx as int, sub_bits(g.hy[self.idx as int], v)),
                ..g
            },
        )
    }

    proof fn shape_lemma(self, t: nat, g: GridView) {
        assert(self.spec_apply(t, g).1.same_shape(g));
    }

    fn apply(&mut self, t: usize, g: &mut Grid) {
        let v = f_div(gaussian(self.t_bits, self.delay, self.width_sq), self.imp);
        tfsf_correct_hy(g, self.idx, v);
        self.t_bits = f_add(self.t_bits, F_ONE);
    }
}

/// The post-electric half of a 1D total-field/scattered-field pair: adds
/// the incident Gaussian pulse, evaluated one whole step ahead to keep the
/// leapfrog alignment, to the electric field just inside the interface.
pub struct TfsfElectric1d {
    pub idx: usize,
    pub delay: u64,
    pub width_sq: u64,
    pub t_bits: u64,
}

impl StepHook for TfsfElectric1d {
    open spec fn pre(self, t: nat, g: GridView) -> bool {
        self.idx < g.ez.len()
    }

    open spec fn spec_apply(self, t: nat, g: GridView) -> (Self, GridView) {
        let v = gaussian_bits(add_bits(self.t_bits, F_ONE), self.delay, self.width_sq);
        (
            TfsfElectric1d { t_bits: add_bits(self.t_bits, F_ONE), ..self },
            GridView {
                ez: g.ez.update(self.idx as int, add_bits(g.ez[self.idx as int], v)),
                ..g
            },
        )
    }

    proof fn shape_lemma(self, t: nat, g: GridView) {
        assert(self.spec_apply(t, g).1.same_shape(g));
    }

    fn apply(&mut self, t: usize, g: &mut Grid) {
        let v = gaussian(f_add(self.t_bits, F_ONE), self.delay, self.width_sq);
        additive_source_ez(g, self.idx, v);
        self.t_bits = f_add(self.t_bits, F_ONE);
    }
}

/// A hard source driving one electric field cell with a Ricker wavelet.
pub struct RickerSource {
    pub idx: usize,
    pub cdtds: u64,
    pub ppw: u64,
    pub t_bits: u64,
}

impl StepHook for RickerSource {
    open spec fn pre(self, t: nat, g: GridView) -> bool {
        self.idx < g.ez.len() && is_nonneg_finite(self.ppw) && !is_zero_val(self.ppw)
    }

    open spec fn spec_apply(self, t: nat, g: GridView) -> (Self, GridView) {
        let v = ricker_bits(self.t_bits, F_ZERO, self.cdtds, self.ppw);
        (
            RickerSource { t_bits: add_bits(self.t_bits, F_ONE), ..self },
            GridView { ez: g.ez.update(self.idx as int, v), ..g },
        )
    }

    proof fn shape_lemma(self, t: nat, g: GridView) {
        assert(self.spec_apply(t, g).1.same_shape(g));
    }

    fn apply(&mut self, t: usize, g: &mut Grid) {
        let v = ricker(self.t_bits, F_ZERO, self.cdtds, self.ppw);
        hard_source_ez(g, self.idx, v);
        self.t_bits = f_add(self.t_bits, F_ONE);
    }
}

/// The naive fixed-edge termination `ez[0] = ez[1]`, the reference a
/// boundary filter is measured against.
pub struct NaiveEdge {}

impl StepHook for NaiveEdge {
    open spec fn pre(self, t: nat, g: GridView) -> bool {
        g.ez.len() == g.x_sz && g.x_sz >= 2
    }

    open spec fn spec_apply(self, t: nat, g: GridView) -> (Self, GridView) {
        (self, GridView { ez: g.ez.update(0, g.ez[1]), ..g })
    }

    proof fn shape_lemma(self, t: nat, g: GridView) {
        assert(self.spec_apply(t, g).1.same_shape(g));
    }

    fn apply(&mut self, t: usize, g: &mut Grid) {
        let v = g.ez[1];
        g.ez[0] = v;
        proof {
            assert(g@ =~= (GridView { ez: old(g)@.ez.update(0, old(g)@.ez[1]), ..old(g)@ }));
        }
    }
}

} // verus!
