//! The quote snapshot the dashboard renders.

use vstd::prelude::*;
use crate::num::FixedNum;

verus! {

/// One immutable quote snapshot, replaced wholesale each tick. The
/// one-hour change is optional: earlier schema revisions of the feed
/// omitted it, and its absence must not fail the render.
#[derive(Clone, Copy, PartialEq, Eq, Debug)]
pub struct Quote {
    pub price: FixedNum,
    pub change_1h: Option<FixedNum>,
    pub change_24h: FixedNum,
}

} // verus!
