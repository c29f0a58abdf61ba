//! Tick windowing and traversal for a concentrated-liquidity market maker.
//!
//! Liquidity is tracked on a discretized price grid of ticks, persisted in
//! fixed-size chunks (tick arrays). This crate assembles exactly three such
//! chunks into one validated, contiguous, randomly-addressable window and
//! answers addressed lookups and directional nearest-initialized-tick
//! searches over it.

pub mod constants;
pub mod order;
pub mod properties;
pub mod tick;
pub mod tick_array;

pub use constants::MAX_TICK_INDEX;
pub use constants::MIN_TICK_INDEX;
pub use constants::TICK_ARRAY_SIZE;
pub use order::order_tick_arrays;
pub use tick::TickArrayFacade;
pub use tick::TickFacade;
pub use tick_array::TickArrayError;
pub use tick_array::TickArraySequence;
