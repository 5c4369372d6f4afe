use vstd::prelude::*;
use super::timer::Timer;

verus! {

/// Output of duty pattern `pattern` at step `position`: 12.5%, 25%, 50% and 75% high.
pub open spec fn duty_table(pattern: u8, position: u8) -> bool {
    if pattern == 0 {
        position == 7
    } else if pattern == 1 {
        position == 0 || position == 7
    } else if pattern == 2 {
        position == 0 || position >= 5
    } else {
        1 <= position <= 6
    }
}

pub fn duty_entry(pattern: u8, position: u8) -> (r: bool)
    ensures
        r == duty_table(pattern, position),
{
    if pattern == 0 {
        position == 7
    } else if pattern == 1 {
        position == 0 || position == 7
    } else if pattern == 2 {
        position == 0 || position >= 5
    } else {
        1 <= position && position <= 6
    }
}

/// The square wave generator of channels 1 and 2.
pub struct Duty {
    pub timer: Timer,
    /// NRx1 bits 6-7
    pub pattern: u8,
    pub position: u8,
    /// eleven-bit frequency of NRx3 and NRx4
    pub frequency: u16,
    pub state: bool,
    pub enable: bool,
}

/// One clock of the square wave generator from `before` to `after`.
pub open spec fn duty_stepped(after: &Duty, before: &Duty) -> bool {
    &&& (after.frequency == before.frequency)
    &&& (after.pattern == before.pattern)
    &&& (after.enable == before.enable)
    &&& (after.timer.period == (2048 - before.frequency) * 4)
    &&& (before.timer.counter == 0 ==> {
            &&& after.timer.counter == after.timer.period
            &&& after.position == (before.position + 1) % 8
            &&& after.state == duty_table(before.pattern, after.position)
        })
    &&& (before.timer.counter != 0 ==> {
            &&& after.timer.counter == before.timer.counter - 1
            &&& after.position == before.position
            &&& after.state == before.state
        })
}

impl Duty {
    pub fn new() -> (r: Duty)
        ensures
            r.wf(),
            r.frequency == 0 && r.pattern == 0 && r.position == 0 && !r.state && !r.enable,
            r.timer.counter == 0 && r.timer.period == 0,
    {
        Duty { timer: Timer::new(), pattern: 0, position: 0, frequency: 0, state: false, enable: false }
    }

    pub open spec fn wf(&self) -> bool {
        self.frequency < 2048 && self.position < 8
    }

    /// Advances one clock: the timer runs at (2048 - frequency) * 4 clocks per step,
    /// and each step moves one place along the pattern.
    pub fn tick(&mut self)
        requires
            old(self).wf(),
        ensures
            final(self).wf(),
            duty_stepped(final(self), old(self)),
    {
        self.timer.period = (2048 - self.frequency as u32) * 4;

        if self.timer.tick() {
            self.position = (self.position + 1) % 8;
            self.state = duty_entry(self.pattern, self.position);
        }
    }
}

} // verus!
