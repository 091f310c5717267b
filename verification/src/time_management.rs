use vstd::prelude::*;

verus! {

/// A monotonic step counter, advanced once per simulation step.
#[derive(Clone, Copy, Debug, PartialEq, Eq, Structural)]
pub struct TimeMgmt {
    pub time: u32,
}

impl TimeMgmt {
    pub fn new(start_time: u32) -> (t: TimeMgmt)
        ensures
            t.time == start_time,
    {
        TimeMgmt { time: start_time }
    }

    /// Advances the counter by one and returns the new reading.
    pub fn update(&mut self) -> (t: u32)
        requires
            old(self).time < u32::MAX,
        ensures
            final(self).time == old(self).time + 1,
            t == final(self).time,
    {
        self.time = self.time + 1;
        self.time
    }

    pub fn reset(&mut self)
        ensures
            final(self).time == 0,
    {
        self.time = 0;
    }
}

} // verus!
