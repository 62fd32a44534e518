//! Timed coin-flip and camera entropy experiments: the tallies, statistics,
//! deadlines and menu choices behind them, with their contracts.
use vstd::prelude::*;

pub mod ratio;
pub mod stats;
pub mod clock;
pub mod trial;
pub mod menu;

verus! {

} // verus!
