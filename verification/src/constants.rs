use vstd::prelude::*;

verus! {

/// The number of ticks stored in one tick array.
pub const TICK_ARRAY_SIZE: usize = 88;

/// The minimum tick index the protocol supports.
pub const MIN_TICK_INDEX: i32 = -443636;

/// The maximum tick index the protocol supports.
pub const MAX_TICK_INDEX: i32 = 443636;

} // verus!

