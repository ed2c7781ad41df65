//! The flag that ends a background thread, and what the thread does that checks timeouts.

use vstd::prelude::*;

verus! {

/// A flag that asks a background thread to end. It is never taken back, and there are no copies of
/// it that could miss its being set: those who share it share the one flag.
#[derive(Debug)]
pub struct StopFlag {
    stop: bool,
}

impl StopFlag {
    /// Whether the thread was asked to end.
    pub closed spec fn view(&self) -> bool {
        self.stop
    }

    /// A flag that is not set.
    pub fn new() -> (f: StopFlag)
        ensures
            !f@,
    {
        StopFlag { stop: false }
    }

    /// Whether the flag is set.
    pub fn is_set(&self) -> (b: bool)
        ensures
            b == self@,
    {
        self.stop
    }

    /// Sets the flag.
    pub fn set(&mut self)
        ensures
            final(self)@,
    {
        self.stop = true;
    }
}

/// How many milliseconds pass between two checks of timeouts.
pub const CHECK_TIMEOUTS_MILLIS: u64 = 500;

/// What the last step of the thread that checks timeouts has ended with.
#[derive(Clone, Copy, Debug, PartialEq, Eq, Structural)]
pub enum TimeoutEvent {
    /// A round is to begin.
    Round,
    /// The thread has slept.
    Slept,
    /// libutp has checked its timeouts, or is no more.
    Checked,
}

/// The next step of the thread that checks timeouts.
#[derive(Clone, Copy, Debug, PartialEq, Eq, Structural)]
pub enum TimeoutAction {
    /// End the thread.
    End,
    /// Begin a round.
    Round,
    /// Sleep for so many milliseconds.
    Sleep(u64),
    /// Let libutp check its timeouts, if there still is one.
    Check,
}

/// What the thread that checks timeouts does next. In each round it sleeps and then has the timeouts
/// checked; it ends only at the beginning of a round, if it was asked to.
pub fn check_timeouts(stop_flag: &StopFlag, event: TimeoutEvent) -> (action: TimeoutAction)
    ensures
        action == (match event {
            TimeoutEvent::Round => if stop_flag@ {
                TimeoutAction::End
            } else {
                TimeoutAction::Sleep(CHECK_TIMEOUTS_MILLIS)
            },
            TimeoutEvent::Slept => TimeoutAction::Check,
            TimeoutEvent::Checked => TimeoutAction::Round,
        }),
{
    match event {
        TimeoutEvent::Round => {
            if stop_flag.is_set() {
                TimeoutAction::End
            } else {
                TimeoutAction::Sleep(CHECK_TIMEOUTS_MILLIS)
            }
        },
        TimeoutEvent::Slept => TimeoutAction::Check,
        TimeoutEvent::Checked => TimeoutAction::Round,
    }
}

} // verus!
