use vstd::prelude::*;

pub mod command;
pub mod devices;
pub mod error;
pub mod placement;
pub mod session;
pub mod text;

verus! {

} // verus!
