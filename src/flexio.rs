use vstd::prelude::*;

pub mod driver;
pub mod driver_builder;
pub mod idle_timer_finished_watcher;
pub mod interleaved_pixels;
pub mod maybe_own;
pub mod prepared_pixels;
pub mod preprocessed_pixels;
pub mod transmit;

verus! {

/// The result of a DMA transmission that ran a concurrent action.
pub struct WriteDmaResult<R> {
    /// The result of the concurrent function
    pub result: R,
    /// True if the transfer had already completed before the concurrent
    /// function started. This might indicate a render lag.
    pub lagged: bool,
}

} // verus!
