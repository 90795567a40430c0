use vstd::prelude::*;

verus! {

/// A millisecond clock that the driver reads and waits on.
pub trait Timer {
    /// Whether `delay_ms(ms)` may be called on this timer in its current state.
    open spec fn can_delay(&self, ms: u32) -> bool {
        true
    }

    /// The current time in milliseconds.
    fn now_ms(&self) -> u32;

    /// Waits `ms` milliseconds.
    fn delay_ms(&mut self, ms: u32)
        requires
            old(self).can_delay(ms),
    ;
}

/// A timer that only moves when told to, for tests.
pub struct MockTimer {
    current_time: u32,
}

impl MockTimer {
    /// The time this mock timer shows.
    pub closed spec fn time(&self) -> u32 {
        self.current_time
    }

    /// A mock timer that starts at zero.
    pub fn new() -> (t: Self)
        ensures
            t.time() == 0,
    {
        MockTimer { current_time: 0 }
    }

    /// Moves the time forward by `ms` milliseconds.
    pub fn advance(&mut self, ms: u32)
        requires
            old(self).time() + ms <= u32::MAX,
        ensures
            final(self).time() == old(self).time() + ms,
    {
        self.current_time = self.current_time + ms;
    }
}

impl Timer for MockTimer {
    open spec fn can_delay(&self, ms: u32) -> bool {
        self.time() + ms <= u32::MAX
    }

    fn now_ms(&self) -> (t: u32)
        ensures
            t == self.time(),
    {
        self.current_time
    }

    fn delay_ms(&mut self, ms: u32)
        ensures
            final(self).time() == old(self).time() + ms,
    {
        self.current_time = self.current_time + ms;
    }
}

} // verus!
