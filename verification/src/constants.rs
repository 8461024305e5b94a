use vstd::prelude::*;

verus! {

/// Entry fee for one play, in native units.
pub const FEE: u64 = 1_000_000_000;

/// The admin's share of one entry fee: a tenth of it, rounded down.
pub const COMMISSION: u64 = FEE / 10;

/// Length of one round. The same span is reused as the width of the
/// winner-exclusive grace window that follows the deadline.
pub const ROUND_TIME_IN_SECONDS: i64 = 3600;

} // verus!
