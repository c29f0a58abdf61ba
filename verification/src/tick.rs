use crate::constants::TICK_ARRAY_SIZE;
use vstd::prelude::*;

verus! {

/// One discretized price point: whether a position boundary has been recorded
/// here, and the net change in active liquidity when the price crosses this
/// tick moving upward.
#[derive(Clone, Copy, Debug, PartialEq, Eq, Structural)]
pub struct TickFacade {
    pub initialized: bool,
    pub liquidity_net: i128,
}

/// A fixed-capacity contiguous block of ticks, the unit of persisted liquidity
/// storage. For a grid with spacing `s`, slot `i` holds the tick at absolute
/// tick index `start_tick_index + i * s`.
#[derive(Clone, Copy, Debug, PartialEq, Eq)]
pub struct TickArrayFacade {
    pub start_tick_index: i32,
    pub ticks: [TickFacade; TICK_ARRAY_SIZE],
}

/// Whether absolute tick index `index` falls in the range covered by `arr`,
/// for a grid with spacing `spacing`.
pub open spec fn array_covers(arr: TickArrayFacade, spacing: int, index: int) -> bool {
    arr.start_tick_index <= index < arr.start_tick_index + TICK_ARRAY_SIZE * spacing
}

/// The tick stored in `arr` at absolute tick index `index`, for a grid with
/// spacing `spacing`.
pub open spec fn tick_in_array(arr: TickArrayFacade, spacing: int, index: int) -> TickFacade
    recommends
        spacing >= 1,
        array_covers(arr, spacing, index),
{
    arr.ticks[(index - arr.start_tick_index) / spacing]
}

} // verus!
