//! Engine-level laws.
//!
//! `FDTDSim::step_mul` pins its outcome, on every backend and dispatch path,
//! as the one shared model `steps_spec` of the rank, the hooks, the starting
//! time index and the grid. The lemmas here record the two consequences the
//! library promises of that: backend choice cannot change the fields, and a
//! run is a pure function of its configuration.

use vstd::prelude::*;
use crate::grid::GridView;
use crate::fdtd::{Backend, FDTDSim, StepHook, steps_spec};

verus! {

/// Cross-backend equivalence: two engines that agree on rank, hooks and
/// starting time produce the same hooks and the same grid model after `n`
/// steps, whichever backend and dispatch path each one runs — the model
/// `steps_spec` that `step_mul` guarantees does not mention the backend.
pub proof fn lemma_backend_equivalence<A: StepHook, B: StepHook>(
    direct: FDTDSim<A, B>,
    accelerated: FDTDSim<A, B>,
    g: GridView,
    n: nat,
)
    requires
        direct.backend == Backend::Direct,
        accelerated.backend == Backend::Accelerated,
        direct.dimension == accelerated.dimension,
        direct.post_magnetic == accelerated.post_magnetic,
        direct.post_electric == accelerated.post_electric,
        direct.time == accelerated.time,
    ensures
        steps_spec(
            direct.dimension,
            direct.post_magnetic,
            direct.post_electric,
            direct.time as nat,
            g,
            n,
        ) == steps_spec(
            accelerated.dimension,
            accelerated.post_magnetic,
            accelerated.post_electric,
            accelerated.time as nat,
            g,
            n,
        ),
{
}

/// Deterministic replay: two identically configured engines stepped the
/// same number of times over equal grids reach bit-identical grids — the
/// model `steps_spec` that `step_mul` guarantees is a function of the
/// configuration alone, with no hidden state.
pub proof fn lemma_deterministic_replay<A: StepHook, B: StepHook>(
    s1: FDTDSim<A, B>,
    s2: FDTDSim<A, B>,
    g1: GridView,
    g2: GridView,
    n: nat,
)
    requires
        s1.dimension == s2.dimension,
        s1.post_magnetic == s2.post_magnetic,
        s1.post_electric == s2.post_electric,
        s1.time == s2.time,
        g1 == g2,
    ensures
        steps_spec(s1.dimension, s1.post_magnetic, s1.post_electric, s1.time as nat, g1, n)
            == steps_spec(s2.dimension, s2.post_magnetic, s2.post_electric, s2.time as nat, g2, n),
{
}

} // verus!
