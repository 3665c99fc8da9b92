//! The simulation engine: rank and backend selection, step hooks, and the
//! per-step sequencing magnetic half-step, post-magnetic hook, electric
//! half-step, post-electric hook.

use vstd::prelude::*;
use crate::error::FDTDError;
use crate::grid::{Grid, GridView};
use crate::step;
use crate::backend;

verus! {

/// The polarization of a 2D grid: transverse-magnetic or
/// transverse-electric with respect to the z axis.
#[derive(Copy, Clone, PartialEq, Eq, Structural)]
pub enum Polarization {
    Magnetic,
    Electric,
}

/// The rank of the simulated grid, with the polarization for rank two.
#[derive(Copy, Clone, PartialEq, Eq, Structural)]
pub enum GridDimension {
    One,
    Two(Polarization),
    Three,
}

impl Default for GridDimension {
    /// Defaults to a 1D grid.
    fn default() -> (r: Self)
        ensures
            r == GridDimension::One,
    {
        GridDimension::One
    }
}

/// The execution backend of the engine: the in-process stencil evaluator,
/// or the accelerated array-compute backend behind the marshalling adapter.
#[derive(Copy, Clone, PartialEq, Eq, Structural)]
pub enum Backend {
    Direct,
    Accelerated,
}

impl Default for Backend {
    /// Defaults to the direct evaluator.
    fn default() -> (r: Self)
        ensures
            r == Backend::Direct,
    {
        Backend::Direct
    }
}

/// The rank and polarization combinations the stencils implement.
pub open spec fn rank_supported(dim: GridDimension) -> bool {
    match dim {
        GridDimension::One => true,
        GridDimension::Two(p) => p == Polarization::Magnetic,
        GridDimension::Three => true,
    }
}

/// The grid's arrays have the lengths its rank demands, and every used axis
/// has at least one cell.
pub open spec fn grid_wf(dim: GridDimension, g: GridView) -> bool {
    match dim {
        GridDimension::One => g.wf_1d() && g.x_sz >= 1,
        GridDimension::Two(_) => g.wf_2d() && g.x_sz >= 1 && g.y_sz >= 1,
        GridDimension::Three => g.wf_3d() && g.x_sz >= 1 && g.y_sz >= 1 && g.z_sz >= 1,
    }
}

/// All field arrays the rank uses encode positive zero.
pub open spec fn grid_zero(dim: GridDimension, g: GridView) -> bool {
    match dim {
        GridDimension::One => g.zero_1d(),
        GridDimension::Two(_) => g.zero_2d(),
        GridDimension::Three => g.zero_3d(),
    }
}

/// All coefficients the rank uses are finite with a cleared sign bit.
pub open spec fn grid_coeffs_ok(dim: GridDimension, g: GridView) -> bool {
    match dim {
        GridDimension::One => g.coeffs_ok_1d(),
        GridDimension::Two(_) => g.coeffs_ok_2d(),
        GridDimension::Three => g.coeffs_ok_3d(),
    }
}

/// Decides `grid_wf` at run time, comparing every used array's length with
/// the extents' product.
pub fn wf_check(dim: GridDimension, g: &Grid) -> (b: bool)
    ensures
        b == grid_wf(dim, g@),
{
    match dim {
        GridDimension::One => {
            g.x_sz >= 1 && g.hy.len() == g.x_sz && g.chyh.len() == g.x_sz
                && g.chye.len() == g.x_sz && g.ez.len() == g.x_sz && g.ceze.len() == g.x_sz
                && g.cezh.len() == g.x_sz
        },
        GridDimension::Two(_) => {
            if g.x_sz < 1 || g.y_sz < 1 {
                return false;
            }
            let hx_len = g.hx.len();
            match g.x_sz.checked_mul(g.y_sz) {
                Option::Some(l) => {
                    g.hx.len() == l && g.chxh.len() == l && g.chxe.len() == l
                        && g.hy.len() == l && g.chyh.len() == l && g.chye.len() == l
                        && g.ez.len() == l && g.ceze.len() == l && g.cezh.len() == l
                },
                Option::None => {
                    proof {
                        assert(hx_len <= usize::MAX);
                        assert(g@.x_sz * g@.y_sz > usize::MAX);
                        assert(!g@.wf_2d());
                    }
                    false
                },
            }
        },
        GridDimension::Three => {
            if g.x_sz < 1 || g.y_sz < 1 || g.z_sz < 1 {
                return false;
            }
            let hx_len = g.hx.len();
            let xy = match g.x_sz.checked_mul(g.y_sz) {
                Option::Some(l) => l,
                Option::None => {
                    proof {
                        assert(hx_len <= usize::MAX);
                        assert(g@.x_sz * g@.y_sz <= g@.x_sz * g@.y_sz * g@.z_sz) by (nonlinear_arith)
                            requires g@.x_sz >= 0, g@.y_sz >= 0, g@.z_sz >= 1;
                        assert(!g@.wf_3d());
                    }
                    return false;
                },
            };
            let l = match xy.checked_mul(g.z_sz) {
                Option::Some(l) => l,
                Option::None => {
                    proof {
                        assert(hx_len <= usize::MAX);
                        assert(g@.x_sz * g@.y_sz * g@.z_sz > usize::MAX) by (nonlinear_arith)
                            requires g@.x_sz * g@.y_sz == xy, xy * g@.z_sz > usize::MAX;
                        assert(!g@.wf_3d());
                    }
                    return false;
                },
            };
            g.hx.len() == l && g.chxh.len() == l && g.chxe.len() == l && g.hy.len() == l
                && g.chyh.len() == l && g.chye.len() == l && g.hz.len() == l
                && g.chzh.len() == l && g.chze.len() == l && g.ex.len() == l
                && g.cexe.len() == l && g.cexh.len() == l && g.ey.len() == l
                && g.ceye.len() == l && g.ceyh.len() == l && g.ez.len() == l
                && g.ceze.len() == l && g.cezh.len() == l
        },
    }
}

/// Every sample of the array is finite with a cleared sign bit.
fn vec_nonneg_finite(v: &Vec<u64>) -> (b: bool)
    ensures
        b == crate::grid::all_nonneg_finite(v@),
{
    let n = v.len();
    let mut i: usize = 0;
    while i < n
        invariant
            0 <= i <= n,
            n == v@.len(),
            forall|j: int| 0 <= j < i ==> crate::num::is_nonneg_finite(v@[j]),
        decreases n - i,
    {
        if v[i] >= 0x7ff0000000000000 {
            return false;
        }
        i += 1;
    }
    true
}

/// Decides `grid_coeffs_ok` at run time: whether every coefficient the rank
/// reads is finite and nonnegative, the hypothesis under which a source-free
/// all-zero grid provably stays all-zero.
pub fn coeffs_check(dim: GridDimension, g: &Grid) -> (b: bool)
    ensures
        b == grid_coeffs_ok(dim, g@),
{
    match dim {
        GridDimension::One => {
            vec_nonneg_finite(&g.chyh) && vec_nonneg_finite(&g.chye)
                && vec_nonneg_finite(&g.ceze) && vec_nonneg_finite(&g.cezh)
        },
        GridDimension::Two(_) => {
            vec_nonneg_finite(&g.chxh) && vec_nonneg_finite(&g.chxe)
                && vec_nonneg_finite(&g.chyh) && vec_nonneg_finite(&g.chye)
                && vec_nonneg_finite(&g.ceze) && vec_nonneg_finite(&g.cezh)
        },
        GridDimension::Three => {
            vec_nonneg_finite(&g.chxh) && vec_nonneg_finite(&g.chxe)
                && vec_nonneg_finite(&g.chyh) && vec_nonneg_finite(&g.chye)
                && vec_nonneg_finite(&g.chzh) && vec_nonneg_finite(&g.chze)
                && vec_nonneg_finite(&g.cexe) && vec_nonneg_finite(&g.cexh)
                && vec_nonneg_finite(&g.ceye) && vec_nonneg_finite(&g.ceyh)
                && vec_nonneg_finite(&g.ceze) && vec_nonneg_finite(&g.cezh)
        },
    }
}

/// The magnetic half-step of the given rank, as a grid transformation.
pub open spec fn magnetic_spec(dim: GridDimension, g: GridView) -> GridView {
    match dim {
        GridDimension::One => step::magnetic_1d_spec(g),
        GridDimension::Two(_) => step::magnetic_2d_spec(g),
        GridDimension::Three => step::magnetic_3d_spec(g),
    }
}

/// The electric half-step of the given rank, as a grid transformation.
pub open spec fn electric_spec(dim: GridDimension, g: GridView) -> GridView {
    match dim {
        GridDimension::One => step::electric_1d_spec(g),
        GridDimension::Two(_) => step::electric_2d_spec(g),
        GridDimension::Three => step::electric_3d_spec(g),
    }
}

/// Runs the magnetic half-step of the engine's rank in place.
fn magnetic_any(dim: GridDimension, g: &mut Grid)
    requires
        rank_supported(dim),
        grid_wf(dim, old(g)@),
    ensures
        final(g)@ == magnetic_spec(dim, old(g)@),
        grid_wf(dim, final(g)@),
        grid_zero(dim, old(g)@) && grid_coeffs_ok(dim, old(g)@) ==> grid_zero(dim, final(g)@)
            && grid_coeffs_ok(dim, final(g)@),
{
    match dim {
        GridDimension::One => step::magnetic_1d(g),
        GridDimension::Two(_) => step::magnetic_2d(g),
        GridDimension::Three => step::magnetic_3d(g),
    }
}

/// Runs the electric half-step of the engine's rank in place.
fn electric_any(dim: GridDimension, g: &mut Grid)
    requires
        rank_supported(dim),
        grid_wf(dim, old(g)@),
    ensures
        final(g)@ == electric_spec(dim, old(g)@),
        grid_wf(dim, final(g)@),
        grid_zero(dim, old(g)@) && grid_coeffs_ok(dim, old(g)@) ==> grid_zero(dim, final(g)@)
            && grid_coeffs_ok(dim, final(g)@),
{
    match dim {
        GridDimension::One => step::electric_1d(g),
        GridDimension::Two(_) => step::electric_2d(g),
        GridDimension::Three => step::electric_3d(g),
    }
}

/// A step hook: a boundary condition, a source, a diagnostic, or any other
/// per-step intervention the caller wires in after a half-step. Each
/// implementation gives its effect as a function of the time index and the
/// grid model, so the engine's contract stays exact with hooks present.
pub trait StepHook: Sized {
    /// When the hook may run on a grid at time index `t`.
    spec fn pre(self, t: nat, g: GridView) -> bool;

    /// The hook's effect: its next state and the next grid.
    spec fn spec_apply(self, t: nat, g: GridView) -> (Self, GridView);

    /// A hook never changes the grid's extents or array lengths, and leaves
    /// the coefficients and the Courant number alone.
    proof fn shape_lemma(self, t: nat, g: GridView)
        requires
            self.pre(t, g),
        ensures
            self.spec_apply(t, g).1.same_shape(g),
    ;

    /// Runs the hook on the grid at time index `t`.
    fn apply(&mut self, t: usize, g: &mut Grid)
        requires
            old(self).pre(t as nat, old(g)@),
        ensures
            *final(self) == old(self).spec_apply(t as nat, old(g)@).0,
            final(g)@ == old(self).spec_apply(t as nat, old(g)@).1,
    ;
}

/// The hook that does nothing.
pub struct NoOpHook;

impl StepHook for NoOpHook {
    open spec fn pre(self, t: nat, g: GridView) -> bool {
        true
    }

    open spec fn spec_apply(self, t: nat, g: GridView) -> (Self, GridView) {
        (self, g)
    }

    proof fn shape_lemma(self, t: nat, g: GridView) {
    }

    fn apply(&mut self, t: usize, g: &mut Grid) {
    }
}

/// Two hooks run in order, as one hook; the demos compose a source
/// correction with a boundary filter this way.
pub struct HookPair<A: StepHook, B: StepHook> {
    pub first: A,
    pub second: B,
}

impl<A: StepHook, B: StepHook> StepHook for HookPair<A, B> {
    open spec fn pre(self, t: nat, g: GridView) -> bool {
        self.first.pre(t, g) && self.second.pre(t, self.first.spec_apply(t, g).1)
    }

    open spec fn spec_apply(self, t: nat, g: GridView) -> (Self, GridView) {
        let (a2, g1) = self.first.spec_apply(t, g);
        let (b2, g2) = self.second.spec_apply(t, g1);
        (HookPair { first: a2, second: b2 }, g2)
    }

    proof fn shape_lemma(self, t: nat, g: GridView) {
        self.first.shape_lemma(t, g);
        self.second.shape_lemma(t, self.first.spec_apply(t, g).1);
    }

    fn apply(&mut self, t: usize, g: &mut Grid) {
        self.first.apply(t, g);
        self.second.apply(t, g);
    }
}

/// The effect of an optional hook: absent hooks leave the grid alone.
pub open spec fn hook_apply<H: StepHook>(h: Option<H>, t: nat, g: GridView) -> (Option<H>, GridView) {
    match h {
        Option::Some(hh) => {
            let (h2, g2) = hh.spec_apply(t, g);
            (Option::Some(h2), g2)
        },
        Option::None => (h, g),
    }
}

/// When an optional hook may run.
pub open spec fn hook_pre<H: StepHook>(h: Option<H>, t: nat, g: GridView) -> bool {
    match h {
        Option::Some(hh) => hh.pre(t, g),
        Option::None => true,
    }
}

/// One full time step at time index `t`: magnetic half-step, post-magnetic
/// hook, electric half-step, post-electric hook.
pub open spec fn step_spec<A: StepHook, B: StepHook>(
    dim: GridDimension,
    a: Option<A>,
    b: Option<B>,
    t: nat,
    g: GridView,
) -> (Option<A>, Option<B>, GridView) {
    let g1 = magnetic_spec(dim, g);
    let (a2, g2) = hook_apply(a, t, g1);
    let g3 = electric_spec(dim, g2);
    let (b2, g4) = hook_apply(b, t, g3);
    (a2, b2, g4)
}

/// Both hooks may run within the step at time index `t`.
pub open spec fn step_pre<A: StepHook, B: StepHook>(
    dim: GridDimension,
    a: Option<A>,
    b: Option<B>,
    t: nat,
    g: GridView,
) -> bool {
    let g1 = magnetic_spec(dim, g);
    let (a2, g2) = hook_apply(a, t, g1);
    let g3 = electric_spec(dim, g2);
    hook_pre(a, t, g1) && hook_pre(b, t, g3)
}

/// `n` full time steps starting at time index `t`.
pub open spec fn steps_spec<A: StepHook, B: StepHook>(
    dim: GridDimension,
    a: Option<A>,
    b: Option<B>,
    t: nat,
    g: GridView,
    n: nat,
) -> (Option<A>, Option<B>, GridView)
    decreases n,
{
    if n == 0 {
        (a, b, g)
    } else {
        let (a2, b2, g2) = step_spec(dim, a, b, t, g);
        steps_spec(dim, a2, b2, t + 1, g2, (n - 1) as nat)
    }
}

/// The hooks may run at every one of the `n` steps starting at time `t`.
pub open spec fn steps_pre<A: StepHook, B: StepHook>(
    dim: GridDimension,
    a: Option<A>,
    b: Option<B>,
    t: nat,
    g: GridView,
    n: nat,
) -> bool
    decreases n,
{
    n == 0 || {
        let (a2, b2, g2) = step_spec(dim, a, b, t, g);
        step_pre(dim, a, b, t, g) && steps_pre(dim, a2, b2, t + 1, g2, (n - 1) as nat)
    }
}

/// The shape is kept from `g0` to `g2` and the field arrays the rank's
/// stencils never write agree between them.
pub open spec fn untouched_fields(dim: GridDimension, g0: GridView, g2: GridView) -> bool {
    &&& g2.same_shape(g0)
    &&& match dim {
        GridDimension::One => g2.hx =~= g0.hx && g2.hz =~= g0.hz && g2.ex =~= g0.ex
            && g2.ey =~= g0.ey,
        GridDimension::Two(_) => g2.hz =~= g0.hz && g2.ex =~= g0.ex && g2.ey =~= g0.ey,
        GridDimension::Three => true,
    }
}

/// One half-step of any rank keeps the grid's shape and leaves the other
/// ranks' field arrays alone.
proof fn lemma_half_step_untouched(dim: GridDimension, g: GridView)
    ensures
        untouched_fields(dim, g, magnetic_spec(dim, g)),
        untouched_fields(dim, g, electric_spec(dim, g)),
{
    assert(magnetic_spec(dim, g).same_shape(g));
    assert(electric_spec(dim, g).same_shape(g));
}

/// A well-shaped grid stays well-shaped under any hook.
proof fn lemma_same_shape_wf(dim: GridDimension, g1: GridView, g2: GridView)
    requires
        grid_wf(dim, g1),
        g2.same_shape(g1),
    ensures
        grid_wf(dim, g2),
{
}

/// Decides `rank_supported` at run time.
fn rank_check(dim: GridDimension) -> (b: bool)
    ensures
        b == rank_supported(dim),
{
    match dim {
        GridDimension::One => true,
        GridDimension::Two(Polarization::Magnetic) => true,
        GridDimension::Two(Polarization::Electric) => false,
        GridDimension::Three => true,
    }
}

/// The simulation engine: owns the rank, the backend selection and the two
/// optional step hooks, and sequences full time steps over a borrowed grid.
pub struct FDTDSim<A, B> where A: StepHook, B: StepHook {
    pub dimension: GridDimension,
    pub backend: Backend,
    pub backend_context: Option<backend::BackendContext>,
    pub post_magnetic: Option<A>,
    pub post_electric: Option<B>,
    pub time: usize,
}

/// What `step_mul` guarantees: on success the hooks and the grid equal the
/// `n`-step model and the time index advances by `n`; on failure nothing is
/// mutated and the error names the first check that failed, in the order
/// context, rank, shape.
pub open spec fn step_mul_post<A: StepHook, B: StepHook>(
    pre_sim: FDTDSim<A, B>,
    pre_g: GridView,
    post_sim: FDTDSim<A, B>,
    post_g: GridView,
    n: nat,
    r: Result<(), FDTDError>,
) -> bool {
    match r {
        Result::Ok(()) => {
            &&& !(pre_sim.backend == Backend::Accelerated && pre_sim.backend_context is None)
            &&& rank_supported(pre_sim.dimension)
            &&& grid_wf(pre_sim.dimension, pre_g)
            &&& ({
                let (a2, b2, g2) = steps_spec(
                    pre_sim.dimension,
                    pre_sim.post_magnetic,
                    pre_sim.post_electric,
                    pre_sim.time as nat,
                    pre_g,
                    n,
                );
                post_g == g2 && post_sim == (FDTDSim {
                    post_magnetic: a2,
                    post_electric: b2,
                    time: (pre_sim.time + n) as usize,
                    ..pre_sim
                })
            })
            &&& grid_wf(pre_sim.dimension, post_g)
            &&& (pre_sim.post_magnetic is None && pre_sim.post_electric is None
                && grid_zero(pre_sim.dimension, pre_g) && grid_coeffs_ok(pre_sim.dimension, pre_g)
                ==> grid_zero(pre_sim.dimension, post_g))
        },
        Result::Err(e) => {
            &&& post_sim == pre_sim
            &&& post_g == pre_g
            &&& if pre_sim.backend == Backend::Accelerated && pre_sim.backend_context is None {
                e == FDTDError::BackendInitializationFailure
            } else if !rank_supported(pre_sim.dimension) {
                e == FDTDError::UnimplementedConfiguration
            } else {
                &&& !grid_wf(pre_sim.dimension, pre_g)
                &&& e == (if pre_sim.backend == Backend::Direct {
                    FDTDError::LengthMismatch
                } else {
                    FDTDError::BackendTransferFailure
                })
            }
        },
    }
}

impl<A, B> Default for FDTDSim<A, B> where A: StepHook, B: StepHook {
    /// A direct-evaluator 1D engine with no hooks at time index 0.
    fn default() -> (r: Self)
        ensures
            r.dimension == GridDimension::One,
            r.backend == Backend::Direct,
            r.backend_context is None,
            r.post_magnetic is None,
            r.post_electric is None,
            r.time == 0,
    {
        FDTDSim {
            dimension: GridDimension::One,
            backend: Backend::Direct,
            backend_context: None,
            post_magnetic: None,
            post_electric: None,
            time: 0,
        }
    }
}

impl<A, B> FDTDSim<A, B> where A: StepHook, B: StepHook {
    /// Creates an engine; absent options fall back to a 1D grid, the direct
    /// evaluator and time index 0. Selecting the accelerated backend creates
    /// its compute context; construction fails only when that creation
    /// fails, which the in-process context never does, so the result is
    /// always `Ok`.
    pub fn new(
        dimension: Option<GridDimension>,
        backend: Option<Backend>,
        a: Option<A>,
        b: Option<B>,
        time: Option<usize>,
    ) -> (r: Result<Self, FDTDError>)
        ensures
            r is Ok,
            match r {
                Result::Ok(s) => {
                    &&& s.dimension == (match dimension {
                        Option::Some(d) => d,
                        Option::None => GridDimension::One,
                    })
                    &&& s.backend == (match backend {
                        Option::Some(bk) => bk,
                        Option::None => Backend::Direct,
                    })
                    &&& (s.backend == Backend::Accelerated <==> s.backend_context is Some)
                    &&& s.post_magnetic == a
                    &&& s.post_electric == b
                    &&& s.time == (match time {
                        Option::Some(t) => t,
                        Option::None => 0,
                    })
                },
                Result::Err(e) => e == FDTDError::BackendInitializationFailure,
            },
    {
        let backend_v = match backend {
            Option::Some(bk) => bk,
            Option::None => Backend::Direct,
        };
        let context = match backend_v {
            Backend::Accelerated => match backend::BackendContext::new() {
                Result::Ok(c) => Some(c),
                Result::Err(_) => {
                    return Err(FDTDError::BackendInitializationFailure);
                },
            },
            Backend::Direct => None,
        };
        Ok(FDTDSim {
            dimension: match dimension {
                Option::Some(d) => d,
                Option::None => GridDimension::One,
            },
            backend: backend_v,
            backend_context: context,
            post_magnetic: a,
            post_electric: b,
            time: match time {
                Option::Some(t) => t,
                Option::None => 0,
            },
        })
    }

    /// Installs or removes the post-magnetic hook.
    pub fn set_post_magnetic(&mut self, f: Option<A>)
        ensures
            *final(self) == (FDTDSim { post_magnetic: f, ..*old(self) }),
    {
        self.post_magnetic = f;
    }

    /// Installs or removes the post-electric hook.
    pub fn set_post_electric(&mut self, f: Option<B>)
        ensures
            *final(self) == (FDTDSim { post_electric: f, ..*old(self) }),
    {
        self.post_electric = f;
    }

    /// One full time step of the direct evaluator.
    fn step_native(&mut self, g: &mut Grid)
        requires
            rank_supported(old(self).dimension),
            grid_wf(old(self).dimension, old(g)@),
            step_pre(
                old(self).dimension,
                old(self).post_magnetic,
                old(self).post_electric,
                old(self).time as nat,
                old(g)@,
            ),
            old(self).time < usize::MAX,
        ensures
            ({
                let (a2, b2, g2) = step_spec(
                    old(self).dimension,
                    old(self).post_magnetic,
                    old(self).post_electric,
                    old(self).time as nat,
                    old(g)@,
                );
                &&& final(g)@ == g2
                &&& *final(self) == (FDTDSim {
                    post_magnetic: a2,
                    post_electric: b2,
                    time: (old(self).time + 1) as usize,
                    ..*old(self)
                })
            }),
            grid_wf(old(self).dimension, final(g)@),
            old(self).post_magnetic is None && old(self).post_electric is None
                && grid_zero(old(self).dimension, old(g)@)
                && grid_coeffs_ok(old(self).dimension, old(g)@)
                ==> grid_zero(old(self).dimension, final(g)@)
                    && grid_coeffs_ok(old(self).dimension, final(g)@),
    {
        let ghost dim = self.dimension;
        let ghost a0 = self.post_magnetic;
        let ghost b0 = self.post_electric;
        let ghost t0 = self.time as nat;
        let dim_now = self.dimension;
        let t_now = self.time;
        magnetic_any(dim_now, g);
        let ghost g1 = g@;
        match &mut self.post_magnetic {
            Option::Some(h) => {
                h.apply(t_now, g);
            },
            Option::None => {},
        }
        proof {
            match a0 {
                Option::Some(h0) => {
                    h0.shape_lemma(t0, g1);
                    lemma_same_shape_wf(dim, g1, g@);
                },
                Option::None => {},
            }
        }
        electric_any(dim_now, g);
        let ghost g3 = g@;
        match &mut self.post_electric {
            Option::Some(h) => {
                h.apply(t_now, g);
            },
            Option::None => {},
        }
        proof {
            match b0 {
                Option::Some(h0) => {
                    h0.shape_lemma(t0, g3);
                    lemma_same_shape_wf(dim, g3, g@);
                },
                Option::None => {},
            }
        }
        self.time = t_now + 1;
    }

    /// `n` full time steps of the direct evaluator.
    fn step_mul_native(&mut self, g: &mut Grid, n: usize)
        requires
            rank_supported(old(self).dimension),
            !(old(self).backend == Backend::Accelerated && old(self).backend_context is None),
            grid_wf(old(self).dimension, old(g)@),
            steps_pre(
                old(self).dimension,
                old(self).post_magnetic,
                old(self).post_electric,
                old(self).time as nat,
                old(g)@,
                n as nat,
            ),
            old(self).time + n <= usize::MAX,
        ensures
            step_mul_post(*old(self), old(g)@, *final(self), final(g)@, n as nat, Result::Ok(())),
    {
        let ghost dim = self.dimension;
        let ghost zf: bool = self.post_magnetic is None && self.post_electric is None
            && grid_zero(dim, g@) && grid_coeffs_ok(dim, g@);
        let mut i: usize = 0;
        while i < n
            invariant
                0 <= i <= n,
                self.dimension == old(self).dimension,
                self.backend == old(self).backend,
                self.backend_context == old(self).backend_context,
                dim == old(self).dimension,
                rank_supported(dim),
                old(self).time + n <= usize::MAX,
                self.time == old(self).time + i,
                grid_wf(dim, g@),
                steps_pre(dim, self.post_magnetic, self.post_electric, self.time as nat, g@, (n - i) as nat),
                steps_spec(dim, self.post_magnetic, self.post_electric, self.time as nat, g@, (n - i) as nat)
                    == steps_spec(
                    dim,
                    old(self).post_magnetic,
                    old(self).post_electric,
                    old(self).time as nat,
                    old(g)@,
                    n as nat,
                ),
                zf ==> self.post_magnetic is None && self.post_electric is None
                    && grid_zero(dim, g@) && grid_coeffs_ok(dim, g@),
                zf == (old(self).post_magnetic is None && old(self).post_electric is None
                    && grid_zero(dim, old(g)@) && grid_coeffs_ok(dim, old(g)@)),
            decreases n - i,
        {
            self.step_native(g);
            i += 1;
        }
    }

    /// One full time step through the adapter when only a post-electric hook
    /// is present: one combined remote step, one transfer back, then the
    /// hook.
    fn step_accel_single(&mut self, g: &mut Grid)
        requires
            rank_supported(old(self).dimension),
            grid_wf(old(self).dimension, old(g)@),
            old(self).post_magnetic is None,
            step_pre(
                old(self).dimension,
                old(self).post_magnetic,
                old(self).post_electric,
                old(self).time as nat,
                old(g)@,
            ),
            old(self).time < usize::MAX,
        ensures
            ({
                let (a2, b2, g2) = step_spec(
                    old(self).dimension,
                    old(self).post_magnetic,
                    old(self).post_electric,
                    old(self).time as nat,
                    old(g)@,
                );
                &&& final(g)@ == g2
                &&& *final(self) == (FDTDSim {
                    post_magnetic: a2,
                    post_electric: b2,
                    time: (old(self).time + 1) as usize,
                    ..*old(self)
                })
            }),
            grid_wf(old(self).dimension, final(g)@),
    {
        let ghost dim = self.dimension;
        let ghost b0 = self.post_electric;
        let ghost t0 = self.time as nat;
        let dim_now = self.dimension;
        let t_now = self.time;
        let mut d = match backend::upload(dim_now, g) {
            Result::Ok(d) => d,
            Result::Err(_) => {
                proof {
                    assert(false);
                }
                Grid::default()
            },
        };
        magnetic_any(dim_now, &mut d);
        electric_any(dim_now, &mut d);
        proof {
            lemma_half_step_untouched(dim, old(g)@);
            lemma_half_step_untouched(dim, magnetic_spec(dim, old(g)@));
        }
        backend::download_magnetic(dim_now, g, &d);
        backend::download_electric(dim_now, g, &d);
        proof {
            assert(g@ =~= electric_spec(dim, magnetic_spec(dim, old(g)@)));
        }
        let ghost g3 = g@;
        match &mut self.post_electric {
            Option::Some(h) => {
                h.apply(t_now, g);
            },
            Option::None => {},
        }
        proof {
            match b0 {
                Option::Some(h0) => {
                    h0.shape_lemma(t0, g3);
                    lemma_same_shape_wf(dim, g3, g@);
                },
                Option::None => {},
            }
        }
        self.time = t_now + 1;
    }

    /// One full time step through the adapter when a post-magnetic hook is
    /// present: the remote step is split around the hook, re-marshalling the
    /// locally mutated fields.
    fn step_accel_split(&mut self, g: &mut Grid)
        requires
            rank_supported(old(self).dimension),
            grid_wf(old(self).dimension, old(g)@),
            step_pre(
                old(self).dimension,
                old(self).post_magnetic,
                old(self).post_electric,
                old(self).time as nat,
                old(g)@,
            ),
            old(self).time < usize::MAX,
        ensures
            ({
                let (a2, b2, g2) = step_spec(
                    old(self).dimension,
                    old(self).post_magnetic,
                    old(self).post_electric,
                    old(self).time as nat,
                    old(g)@,
                );
                &&& final(g)@ == g2
                &&& *final(self) == (FDTDSim {
                    post_magnetic: a2,
                    post_electric: b2,
                    time: (old(self).time + 1) as usize,
                    ..*old(self)
                })
            }),
            grid_wf(old(self).dimension, final(g)@),
    {
        let ghost dim = self.dimension;
        let ghost a0 = self.post_magnetic;
        let ghost b0 = self.post_electric;
        let ghost t0 = self.time as nat;
        let dim_now = self.dimension;
        let t_now = self.time;

        let d = match backend::upload(dim_now, g) {
            Result::Ok(d) => d,
            Result::Err(_) => {
                proof {
                    assert(false);
                }
                Grid::default()
            },
        };
        let mut d = d;
        magnetic_any(dim_now, &mut d);
        proof {
            lemma_half_step_untouched(dim, old(g)@);
        }
        backend::download_magnetic(dim_now, g, &d);
        proof {
            assert(g@ =~= magnetic_spec(dim, old(g)@));
        }

        let ghost g1 = g@;
        match &mut self.post_magnetic {
            Option::Some(h) => {
                h.apply(t_now, g);
            },
            Option::None => {},
        }
        proof {
            match a0 {
                Option::Some(h0) => {
                    h0.shape_lemma(t0, g1);
                    lemma_same_shape_wf(dim, g1, g@);
                },
                Option::None => {},
            }
        }

        let ghost g2 = g@;
        let d2 = match backend::upload(dim_now, g) {
            Result::Ok(d) => d,
            Result::Err(_) => {
                proof {
                    assert(false);
                }
                Grid::default()
            },
        };
        let mut d2 = d2;
        electric_any(dim_now, &mut d2);
        proof {
            lemma_half_step_untouched(dim, g2);
        }
        backend::download_electric(dim_now, g, &d2);
        proof {
            assert(g@ =~= electric_spec(dim, g2));
        }

        let ghost g3 = g@;
        match &mut self.post_electric {
            Option::Some(h) => {
                h.apply(t_now, g);
            },
            Option::None => {},
        }
        proof {
            match b0 {
                Option::Some(h0) => {
                    h0.shape_lemma(t0, g3);
                    lemma_same_shape_wf(dim, g3, g@);
                },
                Option::None => {},
            }
        }
        self.time = t_now + 1;
    }

    /// `n` full time steps through the adapter with only a post-electric
    /// hook: one combined remote step per host-side hook invocation.
    fn step_mul_single(&mut self, g: &mut Grid, n: usize)
        requires
            rank_supported(old(self).dimension),
            !(old(self).backend == Backend::Accelerated && old(self).backend_context is None),
            grid_wf(old(self).dimension, old(g)@),
            old(self).post_magnetic is None,
            old(self).post_electric is Some,
            steps_pre(
                old(self).dimension,
                old(self).post_magnetic,
                old(self).post_electric,
                old(self).time as nat,
                old(g)@,
                n as nat,
            ),
            old(self).time + n <= usize::MAX,
        ensures
            step_mul_post(*old(self), old(g)@, *final(self), final(g)@, n as nat, Result::Ok(())),
    {
        let ghost dim = self.dimension;
        let mut i: usize = 0;
        while i < n
            invariant
                0 <= i <= n,
                self.dimension == old(self).dimension,
                self.backend == old(self).backend,
                self.backend_context == old(self).backend_context,
                dim == old(self).dimension,
                rank_supported(dim),
                old(self).time + n <= usize::MAX,
                self.time == old(self).time + i,
                self.post_magnetic is None,
                grid_wf(dim, g@),
                steps_pre(dim, self.post_magnetic, self.post_electric, self.time as nat, g@, (n - i) as nat),
                steps_spec(dim, self.post_magnetic, self.post_electric, self.time as nat, g@, (n - i) as nat)
                    == steps_spec(
                    dim,
                    old(self).post_magnetic,
                    old(self).post_electric,
                    old(self).time as nat,
                    old(g)@,
                    n as nat,
                ),
            decreases n - i,
        {
            self.step_accel_single(g);
            i += 1;
        }
    }

    /// `n` full time steps through the adapter with a post-magnetic hook:
    /// each remote step is split and re-marshalled around the hooks.
    fn step_mul_split(&mut self, g: &mut Grid, n: usize)
        requires
            rank_supported(old(self).dimension),
            !(old(self).backend == Backend::Accelerated && old(self).backend_context is None),
            grid_wf(old(self).dimension, old(g)@),
            old(self).post_magnetic is Some,
            steps_pre(
                old(self).dimension,
                old(self).post_magnetic,
                old(self).post_electric,
                old(self).time as nat,
                old(g)@,
                n as nat,
            ),
            old(self).time + n <= usize::MAX,
        ensures
            step_mul_post(*old(self), old(g)@, *final(self), final(g)@, n as nat, Result::Ok(())),
    {
        let ghost dim = self.dimension;
        let mut i: usize = 0;
        while i < n
            invariant
                0 <= i <= n,
                self.dimension == old(self).dimension,
                self.backend == old(self).backend,
                self.backend_context == old(self).backend_context,
                dim == old(self).dimension,
                rank_supported(dim),
                old(self).time + n <= usize::MAX,
                self.time == old(self).time + i,
                grid_wf(dim, g@),
                steps_pre(dim, self.post_magnetic, self.post_electric, self.time as nat, g@, (n - i) as nat),
                steps_spec(dim, self.post_magnetic, self.post_electric, self.time as nat, g@, (n - i) as nat)
                    == steps_spec(
                    dim,
                    old(self).post_magnetic,
                    old(self).post_electric,
                    old(self).time as nat,
                    old(g)@,
                    n as nat,
                ),
            decreases n - i,
        {
            self.step_accel_split(g);
            i += 1;
        }
    }

    /// `n` full time steps through the adapter with no hooks: one transfer
    /// each way around a batched remote evaluation.
    fn step_mul_batched(&mut self, g: &mut Grid, n: usize)
        requires
            rank_supported(old(self).dimension),
            !(old(self).backend == Backend::Accelerated && old(self).backend_context is None),
            grid_wf(old(self).dimension, old(g)@),
            old(self).post_magnetic is None,
            old(self).post_electric is None,
            old(self).time + n <= usize::MAX,
        ensures
            step_mul_post(*old(self), old(g)@, *final(self), final(g)@, n as nat, Result::Ok(())),
    {
        let ghost dim = self.dimension;
        let ghost zf: bool = grid_zero(dim, g@) && grid_coeffs_ok(dim, g@);
        let dim_now = self.dimension;
        let t_now = self.time;
        let mut d = match backend::upload(dim_now, g) {
            Result::Ok(d) => d,
            Result::Err(_) => {
                proof {
                    assert(false);
                }
                Grid::default()
            },
        };
        let mut i: usize = 0;
        while i < n
            invariant
                0 <= i <= n,
                dim == old(self).dimension,
                dim_now == dim,
                t_now == old(self).time,
                rank_supported(dim),
                grid_wf(dim, d@),
                d@.same_shape(old(g)@),
                steps_spec::<A, B>(dim, Option::None, Option::None, (t_now + i) as nat, d@, (n - i) as nat)
                    == steps_spec::<A, B>(dim, Option::None, Option::None, t_now as nat, old(g)@, n as nat),
                untouched_fields(dim, old(g)@, d@),
                t_now + n <= usize::MAX,
                zf ==> grid_zero(dim, d@) && grid_coeffs_ok(dim, d@),
                zf == (grid_zero(dim, old(g)@) && grid_coeffs_ok(dim, old(g)@)),
            decreases n - i,
        {
            let ghost d_pre = d@;
            magnetic_any(dim_now, &mut d);
            electric_any(dim_now, &mut d);
            proof {
                lemma_half_step_untouched(dim, d_pre);
                lemma_half_step_untouched(dim, magnetic_spec(dim, d_pre));
            }
            i += 1;
        }
        backend::download_magnetic(dim_now, g, &d);
        backend::download_electric(dim_now, g, &d);
        proof {
            assert(g@ =~= d@);
            assert(steps_spec::<A, B>(dim, Option::None, Option::None, (t_now + n) as nat, d@, 0).2 == d@);
        }
        self.time = t_now + n;
    }
    pub fn step_mul(&mut self, g: &mut Grid, n: usize) -> (r: Result<(), FDTDError>)
        requires
            old(self).time + n <= usize::MAX,
            steps_pre(
                old(self).dimension,
                old(self).post_magnetic,
                old(self).post_electric,
                old(self).time as nat,
                old(g)@,
                n as nat,
            ),
        ensures
            step_mul_post(*old(self), old(g)@, *final(self), final(g)@, n as nat, r),
    {
        if self.backend == Backend::Accelerated && self.backend_context.is_none() {
            return Err(FDTDError::BackendInitializationFailure);
        }
        if !rank_check(self.dimension) {
            return Err(FDTDError::UnimplementedConfiguration);
        }
        if !wf_check(self.dimension, g) {
            return Err(
                match self.backend {
                    Backend::Direct => FDTDError::LengthMismatch,
                    Backend::Accelerated => FDTDError::BackendTransferFailure,
                },
            );
        }
        match self.backend {
            Backend::Direct => {
                self.step_mul_native(g, n);
                Ok(())
            },
            Backend::Accelerated => {
                if self.post_magnetic.is_none() && self.post_electric.is_none() {
                    self.step_mul_batched(g, n);
                } else if self.post_magnetic.is_none() {
                    self.step_mul_single(g, n);
                } else {
                    self.step_mul_split(g, n);
                }
                Ok(())
            },
        }
    }

    /// One full time step.
    pub fn step(&mut self, g: &mut Grid) -> (r: Result<(), FDTDError>)
        requires
            old(self).time + 1 <= usize::MAX,
            steps_pre(
                old(self).dimension,
                old(self).post_magnetic,
                old(self).post_electric,
                old(self).time as nat,
                old(g)@,
                1,
            ),
        ensures
            step_mul_post(*old(self), old(g)@, *final(self), final(g)@, 1, r),
    {
        self.step_mul(g, 1)
    }
}

} // verus!
