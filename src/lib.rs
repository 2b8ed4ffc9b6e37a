use vstd::prelude::*;

pub mod assets;
pub mod cli;
pub mod control;
pub mod error;
pub mod guest;
pub mod netplan;
pub mod network;
pub mod orchestrator;
pub mod registry;
pub mod text;

verus! {

} // verus!
