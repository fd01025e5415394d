//! Deterministic core of a heroes-and-cowards crowd simulation: the run
//! lifecycle, the friend/foe relationship graph drawn from a seeded stream,
//! and the choice of steering terms for each agent.
use vstd::prelude::*;

pub mod relations;
pub mod rng;
pub mod settings;
pub mod simulation;
pub mod steering;

verus! {

} // verus!
