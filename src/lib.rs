//! Float-free core of a Monte Carlo path tracer: the 8-bit image buffer,
//! the reader of the `.cfg` scene-description header, the renderer's
//! backend selection and the row-major pixel cursor that drives sampling.
use vstd::prelude::*;

pub mod png;
pub mod renderer;
pub mod text;
pub mod grammar;
pub mod cfg_loader;
pub mod source;

verus! {

} // verus!
