//! A finite-difference time-domain field engine over IEEE 754 bit patterns:
//! grid data model, per-rank update stencils, absorbing boundaries, source
//! injection, and a stepping engine with a direct and a marshalled
//! array-compute backend, all specified against one step model.

pub mod num;
pub mod error;
pub mod grid;
pub mod step;
pub mod backend;
pub mod fdtd;
pub mod ricker;
pub mod abc;
pub mod source;
pub mod laws;
