use vstd::prelude::*;

verus! {

/// The outcome of a look at the idle timer: whether it has finished, and a
/// waiter the caller must now wake.
pub struct WatcherPoll<W> {
    pub ready: bool,
    pub wake: Option<W>,
}

/// The completion flag of the idle timer, with at most one waiting task.
///
/// Every operation takes `flag_set`, the idle timer's status flag as the
/// hardware shows it; whenever it is set, the caller clears it in the hardware
/// within the same critical section. The waiter type `W` stands for whatever
/// wakes a task.
pub struct IdleTimerFinishedWatcherInner<W> {
    happened: bool,
    waker: Option<W>,
}

impl<W> IdleTimerFinishedWatcherInner<W> {
    /// The idle timer finished since the flag was last cleared.
    pub closed spec fn happened(&self) -> bool {
        self.happened
    }

    /// The registered waiter, if any.
    pub closed spec fn waiter(&self) -> Option<W> {
        self.waker
    }

    /// Nothing happened yet, nobody waits.
    pub fn new() -> (r: Self)
        ensures
            !r.happened(),
            r.waiter() == None::<W>,
    {
        Self { happened: false, waker: None }
    }

    /// The registered waiter, if any.
    pub fn waker(&self) -> (r: &Option<W>)
        ensures
            *r == self.waiter(),
    {
        &self.waker
    }

    /// Takes over a set hardware flag: records that the timer finished and
    /// hands out the registered waiter to be woken.
    pub fn check_and_reset(&mut self, flag_set: bool) -> (r: Option<W>)
        ensures
            flag_set ==> final(self).happened() && final(self).waiter() == None::<W> && r == old(
                self,
            ).waiter(),
            !flag_set ==> final(self).happened() == old(self).happened() && final(self).waiter()
                == old(self).waiter() && r == None::<W>,
    {
        if flag_set {
            self.happened = true;
            self.waker.take()
        } else {
            None
        }
    }

    /// Called from the interrupt: takes over a set flag.
    pub fn on_interrupt(&mut self, flag_set: bool) -> (r: Option<W>)
        ensures
            flag_set ==> final(self).happened() && final(self).waiter() == None::<W> && r == old(
                self,
            ).waiter(),
            !flag_set ==> final(self).happened() == old(self).happened() && final(self).waiter()
                == old(self).waiter() && r == None::<W>,
    {
        self.check_and_reset(flag_set)
    }

    /// Forgets any earlier completion, after taking over a set flag.
    pub fn clear(&mut self, flag_set: bool) -> (r: Option<W>)
        ensures
            !final(self).happened(),
            flag_set ==> final(self).waiter() == None::<W> && r == old(self).waiter(),
            !flag_set ==> final(self).waiter() == old(self).waiter() && r == None::<W>,
    {
        let r = self.check_and_reset(flag_set);
        self.happened = false;
        r
    }

    /// Whether the timer has finished, checking the flag first.
    pub fn poll(&mut self, flag_set: bool) -> (r: WatcherPoll<W>)
        ensures
            r.ready == (old(self).happened() || flag_set),
            final(self).happened() == r.ready,
            flag_set ==> final(self).waiter() == None::<W> && r.wake == old(self).waiter(),
            !flag_set ==> final(self).waiter() == old(self).waiter() && r.wake == None::<W>,
    {
        let wake = self.check_and_reset(flag_set);
        WatcherPoll { ready: self.happened, wake }
    }

    /// One poll of a task that waits for the timer to finish.
    ///
    /// The flag is checked before the task registers, so a completion that
    /// already happened is never missed. Otherwise `new_waker` becomes the one
    /// waiter; `same_task` tells whether the waiter registered before it wakes
    /// the same task, in which case that one is kept. A different earlier
    /// waiter is displaced and handed out to be woken.
    pub fn poll_finished(&mut self, flag_set: bool, new_waker: W, same_task: bool) -> (r: WatcherPoll<W>)
        ensures
            r.ready == (old(self).happened() || flag_set),
            final(self).happened() == r.ready,
            flag_set ==> final(self).waiter() == None::<W> && r.wake == old(self).waiter(),
            !flag_set && old(self).happened() ==> final(self).waiter() == old(self).waiter()
                && r.wake == None::<W>,
            !flag_set && !old(self).happened() ==> match old(self).waiter() {
                Some(w) => if same_task {
                    final(self).waiter() == Some(w) && r.wake == None::<W>
                } else {
                    final(self).waiter() == Some(new_waker) && r.wake == Some(w)
                },
                None => final(self).waiter() == Some(new_waker) && r.wake == None::<W>,
            },
    {
        let woken = self.check_and_reset(flag_set);
        if self.happened {
            WatcherPoll { ready: true, wake: woken }
        } else {
            let keep = self.waker.is_some() && same_task;
            if keep {
                WatcherPoll { ready: false, wake: None }
            } else {
                let displaced = self.waker.take();
                self.waker = Some(new_waker);
                WatcherPoll { ready: false, wake: displaced }
            }
        }
    }
}

} // verus!
