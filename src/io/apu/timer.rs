use vstd::prelude::*;

verus! {

/// A down-counter that reloads from its period and reports when it ran out.
#[derive(PartialEq, Eq, Structural)]
pub struct Timer {
    pub counter: u32,
    pub period: u32,
}

impl Timer {
    pub fn new() -> (r: Timer)
        ensures
            r.counter == 0 && r.period == 0,
    {
        Timer { counter: 0, period: 0 }
    }

    /// Counts down one step; at zero it reloads from the period and returns true.
    pub fn tick(&mut self) -> (r: bool)
        ensures
            r == (old(self).counter == 0),
            final(self).period == old(self).period,
            final(self).counter == if r {
                old(self).period
            } else {
                (old(self).counter - 1) as u32
            },
    {
        if self.counter == 0 {
            self.reset();
            true
        } else {
            self.counter = self.counter - 1;
            false
        }
    }

    pub fn reset(&mut self)
        ensures
            final(self).counter == old(self).period,
            final(self).period == old(self).period,
    {
        self.counter = self.period;
    }
}

} // verus!
