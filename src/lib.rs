//! State quarters: a closed set of states, each admitted in a fixed year,
//! and coins that may carry one of them.
use vstd::prelude::*;

pub mod coin;
pub mod state;

verus! {

} // verus!
