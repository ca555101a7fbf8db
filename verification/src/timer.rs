use vstd::prelude::*;

verus! {

/// A fixed interval, in whole seconds, between two runs of a periodic task.
pub struct Timer {
    interval_secs: u64,
}

impl Timer {
    /// The length of the interval in seconds.
    pub closed spec fn interval(&self) -> u64 {
        self.interval_secs
    }

    /// A timer that fires every `seconds` seconds.
    pub fn new(seconds: u64) -> (timer: Self)
        ensures
            timer.interval() == seconds,
    {
        Timer { interval_secs: seconds }
    }

    /// The length of the interval in seconds.
    pub fn interval_secs(&self) -> (secs: u64)
        ensures
            secs == self.interval(),
    {
        self.interval_secs
    }
}

} // verus!
