use ws2812_flexio::{
    DmaStatus, DmaWriteAction, DmaWriteEvent, FlexioParams, IdleTimerFinishedWatcherInner,
    PixelStream, WS2812Driver, WriteAction, WriteDmaResult,
};

fn driver() -> WS2812Driver {
    let params = FlexioParams { available_pins: 32, available_timers: 8, available_shifters: 1 };
    WS2812Driver::init(params, &vec![10]).unwrap()
}

#[test]
fn blocking_write_feeds_words_and_waits_for_latch() {
    let d = driver();
    let mut tx = d.write(vec![PixelStream::new(vec![[255u8, 0, 0]; 332])]);
    assert_eq!(tx.step(false), WriteAction::CheckShiftBufferEmpty);
    assert_eq!(tx.step(false), WriteAction::CheckShiftBufferEmpty);
    assert_eq!(tx.step(true), WriteAction::ClearFinishedFlag);
    let mut words = Vec::new();
    let mut action = tx.step(false);
    loop {
        match action {
            WriteAction::FillShiftBuffer(w) => {
                words.push(w);
                assert_eq!(tx.step(false), WriteAction::CheckShiftBufferEmpty);
                assert_eq!(tx.step(false), WriteAction::CheckShiftBufferEmpty);
                action = tx.step(true);
            }
            WriteAction::PollFinished => break,
            other => panic!("unexpected {:?}", other),
        }
    }
    assert_eq!(words.len(), 332 * 3 + 1);
    for pixel in 0..332 {
        assert_eq!(&words[pixel * 3..pixel * 3 + 3], &[0, 0x8888_8888, 0]);
    }
    assert_eq!(words[996], 0);
    // Only a set idle-timer flag completes the transmission.
    assert_eq!(tx.step(false), WriteAction::PollFinished);
    assert_eq!(tx.step(false), WriteAction::PollFinished);
    assert_eq!(tx.step(true), WriteAction::Complete);
    assert_eq!(tx.step(false), WriteAction::Complete);
}

fn dma_run(events: &[DmaWriteEvent]) -> Vec<DmaWriteAction> {
    let mut tx = driver().write_dma();
    let mut actions = vec![tx.begin()];
    for e in events {
        actions.push(tx.step(*e));
    }
    actions
}

#[test]
fn dma_slow_action_does_not_lag() {
    let actions = dma_run(&[
        DmaWriteEvent::ShiftBufferEmpty(false),
        DmaWriteEvent::ShiftBufferEmpty(true),
        DmaWriteEvent::Cleared,
        DmaWriteEvent::DmaPolled(DmaStatus::Pending),
        DmaWriteEvent::ActionDone,
        DmaWriteEvent::DmaPolled(DmaStatus::Done),
        DmaWriteEvent::Finished,
    ]);
    assert_eq!(
        actions,
        vec![
            DmaWriteAction::CheckShiftBufferEmpty,
            DmaWriteAction::CheckShiftBufferEmpty,
            DmaWriteAction::ClearFinishedFlag,
            DmaWriteAction::StartDma,
            DmaWriteAction::RunConcurrentAction,
            DmaWriteAction::PollDma,
            DmaWriteAction::AwaitFinished,
            DmaWriteAction::Complete { lagged: false },
        ]
    );
}

#[test]
fn dma_fast_action_awaits_transfer() {
    let actions = dma_run(&[
        DmaWriteEvent::ShiftBufferEmpty(true),
        DmaWriteEvent::Cleared,
        DmaWriteEvent::DmaPolled(DmaStatus::Pending),
        DmaWriteEvent::ActionDone,
        DmaWriteEvent::DmaPolled(DmaStatus::Pending),
        DmaWriteEvent::DmaPolled(DmaStatus::Done),
        DmaWriteEvent::Finished,
    ]);
    assert_eq!(actions[5], DmaWriteAction::AwaitDma);
    assert_eq!(actions[6], DmaWriteAction::AwaitFinished);
    assert_eq!(actions[7], DmaWriteAction::Complete { lagged: false });
}

#[test]
fn dma_done_at_first_poll_lags() {
    let actions = dma_run(&[
        DmaWriteEvent::ShiftBufferEmpty(true),
        DmaWriteEvent::Cleared,
        DmaWriteEvent::DmaPolled(DmaStatus::Done),
        DmaWriteEvent::ActionDone,
        DmaWriteEvent::Finished,
    ]);
    assert_eq!(actions[3], DmaWriteAction::RunConcurrentAction);
    assert_eq!(actions[4], DmaWriteAction::AwaitFinished);
    assert_eq!(actions[5], DmaWriteAction::Complete { lagged: true });
}

#[test]
fn dma_failure_is_reported() {
    let actions = dma_run(&[
        DmaWriteEvent::ShiftBufferEmpty(true),
        DmaWriteEvent::Cleared,
        DmaWriteEvent::DmaPolled(DmaStatus::Failed),
        DmaWriteEvent::Finished,
    ]);
    assert_eq!(actions[3], DmaWriteAction::Fail);
    assert_eq!(actions[4], DmaWriteAction::Fail);
}

#[test]
fn dma_unexpected_event_repeats_request() {
    let actions = dma_run(&[DmaWriteEvent::ShiftBufferEmpty(true), DmaWriteEvent::ActionDone]);
    assert_eq!(actions[2], DmaWriteAction::ClearFinishedFlag);
}

#[test]
fn write_dma_result_carries_both() {
    let r = WriteDmaResult { result: 5u8, lagged: true };
    assert_eq!(r.result, 5);
    assert!(r.lagged);
}

#[test]
fn watcher_second_waiter_wakes_first() {
    let mut w = IdleTimerFinishedWatcherInner::<u32>::new();
    let p = w.poll_finished(false, 1, false);
    assert!(!p.ready);
    assert_eq!(p.wake, None);
    let p = w.poll_finished(false, 1, true);
    assert!(!p.ready);
    assert_eq!(p.wake, None);
    assert_eq!(*w.waker(), Some(1));
    let p = w.poll_finished(false, 2, false);
    assert!(!p.ready);
    assert_eq!(p.wake, Some(1));
    assert_eq!(w.on_interrupt(true), Some(2));
    let p = w.poll_finished(false, 3, false);
    assert!(p.ready);
    assert_eq!(p.wake, None);
}

#[test]
fn watcher_checks_flag_before_registering() {
    let mut w = IdleTimerFinishedWatcherInner::<u32>::new();
    let p = w.poll_finished(true, 1, false);
    assert!(p.ready);
    assert_eq!(*w.waker(), None);
}

#[test]
fn watcher_clear_and_poll() {
    let mut w = IdleTimerFinishedWatcherInner::<u32>::new();
    assert!(!w.poll(false).ready);
    assert!(w.poll(true).ready);
    assert!(w.poll(false).ready);
    assert_eq!(w.clear(false), None);
    assert!(!w.poll(false).ready);
    w.poll_finished(false, 4, false);
    assert_eq!(w.clear(true), Some(4));
    assert!(!w.poll(false).ready);
    assert_eq!(w.check_and_reset(false), None);
}
