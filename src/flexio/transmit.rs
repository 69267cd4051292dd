use vstd::prelude::*;

use super::interleaved_pixels::{interleave, lanes_of, InterleavedPixels};
use crate::pixelstream::PixelStreamRef;

verus! {

/// Where a blocking transmission stands.
#[derive(Debug, Clone, Copy, PartialEq, Eq, Structural)]
pub enum WritePhase {
    /// Nothing done yet.
    Start,
    /// Waiting for the shift buffer to empty before the transmission.
    AwaitIdle,
    /// The completion flag was cleared; the first word is due.
    Cleared,
    /// A word was written to the shift buffer.
    Filled,
    /// Waiting for the shift buffer to take the word.
    Draining,
    /// All words are out; waiting for the idle timer to latch the LEDs.
    Latching,
    /// The transmission is complete.
    Done,
}

/// What the caller must do next for a blocking transmission.
#[derive(Debug, Clone, Copy, PartialEq, Eq, Structural)]
pub enum WriteAction {
    /// Read whether the shift buffer is empty; answer with it.
    CheckShiftBufferEmpty,
    /// Clear the idle-timer-finished flag.
    ClearFinishedFlag,
    /// Write this word to the shift buffer.
    FillShiftBuffer(u32),
    /// Poll whether the idle timer has finished; answer with it.
    PollFinished,
    /// The transmission is complete.
    Complete,
}

/// One step of a blocking transmission: the new phase, the action, and the
/// words still to send, given the answer to the previous action.
pub open spec fn write_transition(phase: WritePhase, answer: bool, words: Seq<u32>) -> (
    WritePhase,
    WriteAction,
    Seq<u32>,
) {
    match phase {
        WritePhase::Start => (WritePhase::AwaitIdle, WriteAction::CheckShiftBufferEmpty, words),
        WritePhase::AwaitIdle => if answer {
            (WritePhase::Cleared, WriteAction::ClearFinishedFlag, words)
        } else {
            (WritePhase::AwaitIdle, WriteAction::CheckShiftBufferEmpty, words)
        },
        WritePhase::Cleared => next_word_transition(words),
        WritePhase::Filled => (WritePhase::Draining, WriteAction::CheckShiftBufferEmpty, words),
        WritePhase::Draining => if answer {
            next_word_transition(words)
        } else {
            (WritePhase::Draining, WriteAction::CheckShiftBufferEmpty, words)
        },
        WritePhase::Latching => if answer {
            (WritePhase::Done, WriteAction::Complete, words)
        } else {
            (WritePhase::Latching, WriteAction::PollFinished, words)
        },
        WritePhase::Done => (WritePhase::Done, WriteAction::Complete, words),
    }
}

/// Sends the next word, or waits for the latch once all are sent.
pub open spec fn next_word_transition(words: Seq<u32>) -> (WritePhase, WriteAction, Seq<u32>) {
    if words.len() > 0 {
        (WritePhase::Filled, WriteAction::FillShiftBuffer(words[0]), words.drop_first())
    } else {
        (WritePhase::Latching, WriteAction::PollFinished, words)
    }
}

/// A blocking transmission: waits for the shift buffer, clears the completion
/// flag, feeds every word into the shift buffer as it drains, and completes
/// once the idle timer has finished.
pub struct BlockingWrite<S: PixelStreamRef> {
    phase: WritePhase,
    words: InterleavedPixels<S>,
}

impl<S: PixelStreamRef> BlockingWrite<S> {
    /// Where the transmission stands.
    pub closed spec fn phase(&self) -> WritePhase {
        self.phase
    }

    /// The words still to send.
    pub closed spec fn words(&self) -> Seq<u32> {
        self.words.words()
    }

    /// A transmission of `lanes`: their interleaved words and one zero word.
    pub fn new(lanes: Vec<S>) -> (r: Self)
        ensures
            r.phase() == WritePhase::Start,
            r.words() == interleave(lanes_of(lanes@)).push(0),
    {
        Self { phase: WritePhase::Start, words: InterleavedPixels::new(lanes) }
    }

    /// Advances the transmission with the answer to the previous action
    /// (ignored where that action asked nothing).
    pub fn step(&mut self, answer: bool) -> (r: WriteAction)
        ensures
            (final(self).phase(), r, final(self).words()) == write_transition(
                old(self).phase(),
                answer,
                old(self).words(),
            ),
    {
        match self.phase {
            WritePhase::Start => {
                self.phase = WritePhase::AwaitIdle;
                WriteAction::CheckShiftBufferEmpty
            },
            WritePhase::AwaitIdle => {
                if answer {
                    self.phase = WritePhase::Cleared;
                    WriteAction::ClearFinishedFlag
                } else {
                    WriteAction::CheckShiftBufferEmpty
                }
            },
            WritePhase::Cleared => self.next_word(),
            WritePhase::Filled => {
                self.phase = WritePhase::Draining;
                WriteAction::CheckShiftBufferEmpty
            },
            WritePhase::Draining => {
                if answer {
                    self.next_word()
                } else {
                    WriteAction::CheckShiftBufferEmpty
                }
            },
            WritePhase::Latching => {
                if answer {
                    self.phase = WritePhase::Done;
                    WriteAction::Complete
                } else {
                    WriteAction::PollFinished
                }
            },
            WritePhase::Done => WriteAction::Complete,
        }
    }

    fn next_word(&mut self) -> (r: WriteAction)
        ensures
            (final(self).phase(), r, final(self).words()) == next_word_transition(old(self).words()),
    {
        match self.words.next() {
            Some(word) => {
                self.phase = WritePhase::Filled;
                WriteAction::FillShiftBuffer(word)
            },
            None => {
                self.phase = WritePhase::Latching;
                WriteAction::PollFinished
            },
        }
    }
}

/// What polling a DMA transfer showed.
#[derive(Debug, Clone, Copy, PartialEq, Eq, Structural)]
pub enum DmaStatus {
    Pending,
    Done,
    Failed,
}

/// What the caller reports back to a DMA transmission.
#[derive(Debug, Clone, Copy, PartialEq, Eq, Structural)]
pub enum DmaWriteEvent {
    /// Whether the shift buffer is empty.
    ShiftBufferEmpty(bool),
    /// The completion flag was cleared.
    Cleared,
    /// The state of the DMA transfer.
    DmaPolled(DmaStatus),
    /// The concurrent action returned.
    ActionDone,
    /// The idle timer has finished.
    Finished,
}

/// What the caller must do next for a DMA transmission.
#[derive(Debug, Clone, Copy, PartialEq, Eq, Structural)]
pub enum DmaWriteAction {
    /// Yield, then read whether the shift buffer is empty.
    CheckShiftBufferEmpty,
    /// Clear the idle-timer-finished flag.
    ClearFinishedFlag,
    /// Start the DMA transfer of the buffer and poll it once.
    StartDma,
    /// Run the concurrent action to its end.
    RunConcurrentAction,
    /// Poll the DMA transfer once.
    PollDma,
    /// Wait for the DMA transfer to end.
    AwaitDma,
    /// Wait for the idle timer to finish.
    AwaitFinished,
    /// The transmission is complete.
    Complete { lagged: bool },
    /// The DMA transfer failed.
    Fail,
}

/// Where a DMA transmission stands.
#[derive(Debug, Clone, Copy, PartialEq, Eq, Structural)]
pub enum DmaPhase {
    Start,
    AwaitIdle,
    Clearing,
    /// The transfer was started; its first poll is due.
    FirstPoll,
    /// The concurrent action runs; `lagged` tells whether the transfer had
    /// already completed when it started.
    Running { lagged: bool },
    /// The action returned before the transfer was seen complete.
    SecondPoll,
    Awaiting,
    Latching { lagged: bool },
    Done { lagged: bool },
    Failed,
}

/// The action a phase waits on; repeated when an event does not answer it.
pub open spec fn pending_action(phase: DmaPhase) -> DmaWriteAction {
    match phase {
        DmaPhase::Start => DmaWriteAction::CheckShiftBufferEmpty,
        DmaPhase::AwaitIdle => DmaWriteAction::CheckShiftBufferEmpty,
        DmaPhase::Clearing => DmaWriteAction::ClearFinishedFlag,
        DmaPhase::FirstPoll => DmaWriteAction::StartDma,
        DmaPhase::Running { .. } => DmaWriteAction::RunConcurrentAction,
        DmaPhase::SecondPoll => DmaWriteAction::PollDma,
        DmaPhase::Awaiting => DmaWriteAction::AwaitDma,
        DmaPhase::Latching { .. } => DmaWriteAction::AwaitFinished,
        DmaPhase::Done { lagged } => DmaWriteAction::Complete { lagged },
        DmaPhase::Failed => DmaWriteAction::Fail,
    }
}

/// One step of a DMA transmission.
pub open spec fn dma_transition(phase: DmaPhase, event: DmaWriteEvent) -> (DmaPhase, DmaWriteAction) {
    let stay = (phase, pending_action(phase));
    match phase {
        DmaPhase::Start => (DmaPhase::AwaitIdle, DmaWriteAction::CheckShiftBufferEmpty),
        DmaPhase::AwaitIdle => match event {
            DmaWriteEvent::ShiftBufferEmpty(true) => (DmaPhase::Clearing, DmaWriteAction::ClearFinishedFlag),
            _ => stay,
        },
        DmaPhase::Clearing => match event {
            DmaWriteEvent::Cleared => (DmaPhase::FirstPoll, DmaWriteAction::StartDma),
            _ => stay,
        },
        DmaPhase::FirstPoll => match event {
            DmaWriteEvent::DmaPolled(DmaStatus::Done) => (
                DmaPhase::Running { lagged: true },
                DmaWriteAction::RunConcurrentAction,
            ),
            DmaWriteEvent::DmaPolled(DmaStatus::Pending) => (
                DmaPhase::Running { lagged: false },
                DmaWriteAction::RunConcurrentAction,
            ),
            DmaWriteEvent::DmaPolled(DmaStatus::Failed) => (DmaPhase::Failed, DmaWriteAction::Fail),
            _ => stay,
        },
        DmaPhase::Running { lagged } => match event {
            DmaWriteEvent::ActionDone => if lagged {
                (DmaPhase::Latching { lagged: true }, DmaWriteAction::AwaitFinished)
            } else {
                (DmaPhase::SecondPoll, DmaWriteAction::PollDma)
            },
            _ => stay,
        },
        DmaPhase::SecondPoll | DmaPhase::Awaiting => match event {
            DmaWriteEvent::DmaPolled(DmaStatus::Done) => (
                DmaPhase::Latching { lagged: false },
                DmaWriteAction::AwaitFinished,
            ),
            DmaWriteEvent::DmaPolled(DmaStatus::Pending) => (DmaPhase::Awaiting, DmaWriteAction::AwaitDma),
            DmaWriteEvent::DmaPolled(DmaStatus::Failed) => (DmaPhase::Failed, DmaWriteAction::Fail),
            _ => stay,
        },
        DmaPhase::Latching { lagged } => match event {
            DmaWriteEvent::Finished => (DmaPhase::Done { lagged }, DmaWriteAction::Complete { lagged }),
            _ => stay,
        },
        DmaPhase::Done { .. } | DmaPhase::Failed => stay,
    }
}

/// The phase reached from `phase` after the given events.
pub open spec fn dma_run(phase: DmaPhase, events: Seq<DmaWriteEvent>) -> DmaPhase
    decreases events.len(),
{
    if events.len() == 0 {
        phase
    } else {
        dma_run(dma_transition(phase, events[0]).0, events.drop_first())
    }
}

/// Along the events from `phase`, the first poll of the transfer, made right
/// after it was started, found it complete.
pub open spec fn first_poll_done(phase: DmaPhase, events: Seq<DmaWriteEvent>) -> bool
    decreases events.len(),
{
    if events.len() == 0 {
        false
    } else if phase == DmaPhase::FirstPoll && events[0] == DmaWriteEvent::DmaPolled(DmaStatus::Done) {
        true
    } else if phase == DmaPhase::FirstPoll && events[0] == DmaWriteEvent::DmaPolled(DmaStatus::Pending) {
        false
    } else {
        first_poll_done(dma_transition(phase, events[0]).0, events.drop_first())
    }
}

/// The lag a phase has already settled, if any.
pub open spec fn settled_lag(phase: DmaPhase) -> Option<bool> {
    match phase {
        DmaPhase::Running { lagged } => Some(lagged),
        DmaPhase::SecondPoll | DmaPhase::Awaiting => Some(false),
        DmaPhase::Latching { lagged } => Some(lagged),
        DmaPhase::Done { lagged } => Some(lagged),
        _ => None,
    }
}

proof fn lemma_run_lag(phase: DmaPhase, events: Seq<DmaWriteEvent>)
    requires
        phase != DmaPhase::Failed,
    ensures
        dma_run(phase, events) matches DmaPhase::Done { lagged } ==> match settled_lag(phase) {
            Some(l) => lagged == l,
            None => lagged == first_poll_done(phase, events),
        },
    decreases events.len(),
{
    if events.len() > 0 {
        let next = dma_transition(phase, events[0]).0;
        if next != DmaPhase::Failed {
            lemma_run_lag(next, events.drop_first());
        } else {
            lemma_failed_stays(events.drop_first());
        }
    }
}

proof fn lemma_failed_stays(events: Seq<DmaWriteEvent>)
    ensures
        dma_run(DmaPhase::Failed, events) == DmaPhase::Failed,
    decreases events.len(),
{
    if events.len() > 0 {
        lemma_failed_stays(events.drop_first());
    }
}

/// A DMA transmission that completes reports a lag exactly when the poll made
/// right after starting the transfer already found it complete, whatever the
/// other events were.
pub proof fn lemma_lagged_iff_first_poll_done(events: Seq<DmaWriteEvent>)
    ensures
        dma_run(DmaPhase::Start, events) matches DmaPhase::Done { lagged } ==> lagged
            == first_poll_done(DmaPhase::Start, events),
{
    lemma_run_lag(DmaPhase::Start, events);
}

/// A DMA transmission with a concurrent action: waits for the shift buffer,
/// clears the completion flag, starts the transfer and polls it once, runs the
/// action, finishes the transfer, and completes once the idle timer has
/// finished. It reports a lag exactly when the first poll already found the
/// transfer complete.
pub struct DmaWrite {
    phase: DmaPhase,
}

impl DmaWrite {
    /// Where the transmission stands.
    pub closed spec fn phase(&self) -> DmaPhase {
        self.phase
    }

    /// A transmission that has not started.
    pub fn new() -> (r: Self)
        ensures
            r.phase() == DmaPhase::Start,
    {
        DmaWrite { phase: DmaPhase::Start }
    }

    /// Starts the transmission: its first request is to look at the shift
    /// buffer.
    pub fn begin(&mut self) -> (r: DmaWriteAction)
        requires
            old(self).phase() == DmaPhase::Start,
        ensures
            final(self).phase() == DmaPhase::AwaitIdle,
            r == DmaWriteAction::CheckShiftBufferEmpty,
    {
        self.phase = DmaPhase::AwaitIdle;
        DmaWriteAction::CheckShiftBufferEmpty
    }

    /// Advances the transmission with what the caller observed.
    pub fn step(&mut self, event: DmaWriteEvent) -> (r: DmaWriteAction)
        ensures
            (final(self).phase(), r) == dma_transition(old(self).phase(), event),
    {
        let pending = self.pending();
        let (phase, action) = match self.phase {
            DmaPhase::Start => (DmaPhase::AwaitIdle, DmaWriteAction::CheckShiftBufferEmpty),
            DmaPhase::AwaitIdle => match event {
                DmaWriteEvent::ShiftBufferEmpty(true) => (DmaPhase::Clearing, DmaWriteAction::ClearFinishedFlag),
                _ => (self.phase, pending),
            },
            DmaPhase::Clearing => match event {
                DmaWriteEvent::Cleared => (DmaPhase::FirstPoll, DmaWriteAction::StartDma),
                _ => (self.phase, pending),
            },
            DmaPhase::FirstPoll => match event {
                DmaWriteEvent::DmaPolled(DmaStatus::Done) => (
                    DmaPhase::Running { lagged: true },
                    DmaWriteAction::RunConcurrentAction,
                ),
                DmaWriteEvent::DmaPolled(DmaStatus::Pending) => (
                    DmaPhase::Running { lagged: false },
                    DmaWriteAction::RunConcurrentAction,
                ),
                DmaWriteEvent::DmaPolled(DmaStatus::Failed) => (DmaPhase::Failed, DmaWriteAction::Fail),
                _ => (self.phase, pending),
            },
            DmaPhase::Running { lagged } => match event {
                DmaWriteEvent::ActionDone => {
                    if lagged {
                        (DmaPhase::Latching { lagged: true }, DmaWriteAction::AwaitFinished)
                    } else {
                        (DmaPhase::SecondPoll, DmaWriteAction::PollDma)
                    }
                },
                _ => (self.phase, pending),
            },
            DmaPhase::SecondPoll | DmaPhase::Awaiting => match event {
                DmaWriteEvent::DmaPolled(DmaStatus::Done) => (
                    DmaPhase::Latching { lagged: false },
                    DmaWriteAction::AwaitFinished,
                ),
                DmaWriteEvent::DmaPolled(DmaStatus::Pending) => (DmaPhase::Awaiting, DmaWriteAction::AwaitDma),
                DmaWriteEvent::DmaPolled(DmaStatus::Failed) => (DmaPhase::Failed, DmaWriteAction::Fail),
                _ => (self.phase, pending),
            },
            DmaPhase::Latching { lagged } => match event {
                DmaWriteEvent::Finished => (DmaPhase::Done { lagged }, DmaWriteAction::Complete { lagged }),
                _ => (self.phase, pending),
            },
            DmaPhase::Done { .. } | DmaPhase::Failed => (self.phase, pending),
        };
        self.phase = phase;
        action
    }

    /// The action the current phase waits on.
    fn pending(&self) -> (r: DmaWriteAction)
        ensures
            r == pending_action(self.phase()),
    {
        match self.phase {
            DmaPhase::Start => DmaWriteAction::CheckShiftBufferEmpty,
            DmaPhase::AwaitIdle => DmaWriteAction::CheckShiftBufferEmpty,
            DmaPhase::Clearing => DmaWriteAction::ClearFinishedFlag,
            DmaPhase::FirstPoll => DmaWriteAction::StartDma,
            DmaPhase::Running { .. } => DmaWriteAction::RunConcurrentAction,
            DmaPhase::SecondPoll => DmaWriteAction::PollDma,
            DmaPhase::Awaiting => DmaWriteAction::AwaitDma,
            DmaPhase::Latching { .. } => DmaWriteAction::AwaitFinished,
            DmaPhase::Done { lagged } => DmaWriteAction::Complete { lagged },
            DmaPhase::Failed => DmaWriteAction::Fail,
        }
    }
}

} // verus!
