//! Decision core of a liquidity-position rebalancer: a window on the latest
//! range prediction, the merge of what one polling cycle fetched, and the
//! choice of rebalance instructions.
use vstd::prelude::*;

pub mod error;
pub mod poller;
pub mod time_range;
pub mod wide;

verus! {

} // verus!
