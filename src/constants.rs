use vstd::prelude::*;

verus! {

/// Largest number of characters a human-readable response may carry.
pub const CHARACTER_LIMIT: usize = 25000;

/// Number of events fetched when the caller gives no limit.
pub const DEFAULT_EVENTS_LIMIT: i32 = 100;

} // verus!
