//! Driver logic for WS2812-class LED strips on the i.MX RT FlexIO peripheral.
//!
//! The library holds everything that decides: which timers, shifters and pins
//! the driver uses and how their registers are programmed, how pixels become
//! wire bytes, how up to four lanes are interleaved into shifter words, the
//! DMA transmission buffers, and the transmit and completion state machines.
//! Touching the hardware is left to the caller, which performs the register
//! writes and answers the state machines' questions.

mod flexio;
mod pixel;
mod pixelstream;

/// Possible errors that could happen.
pub mod errors;

pub use flexio::driver::{
    configured_shifters, configured_timers, init_error, is_first_clock_pin, is_first_run,
    FlexioParams, PinAllocation, WS2812Driver,
};
pub use flexio::driver_builder::{
    DriverBuilder, FlexioConfig, ShifterConfig, ShifterControl, ShifterSetup, TimerConfig,
    TimerControl, TimerSetup, CLOCK_DIVIDER, CYCLE_LENGTH, HIGH_BIT_CYCLES_ON, LATCH_DELAY,
    LOW_BIT_CYCLES_ON,
};
pub use flexio::idle_timer_finished_watcher::{IdleTimerFinishedWatcherInner, WatcherPoll};
pub use flexio::interleaved_pixels::{
    deinterleave, interleave, lemma_interleave_deinterleave, InterleavedPixels,
};
pub use flexio::maybe_own::MaybeOwn;
pub use flexio::prepared_pixels::{PreparedPixels, PreparedPixelsRef};
pub use flexio::preprocessed_pixels::{
    lemma_prepare_idempotent, lemma_prepare_zero_fill, PreprocessedPixels,
};
pub use flexio::transmit::{
    lemma_lagged_iff_first_poll_done, BlockingWrite, DmaPhase, DmaStatus, DmaWrite,
    DmaWriteAction, DmaWriteEvent, WriteAction, WritePhase,
};
pub use flexio::WriteDmaResult;
pub use pixel::{LinSrgb8, Pixel, PixelBytes};
pub use pixelstream::{IntoPixelStream, PixelStream, PixelStreamRef};
