use vstd::prelude::*;

pub mod buses;
pub mod grid;
pub mod models;
pub mod simulation;

verus! {

} // verus!
