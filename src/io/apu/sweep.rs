use vstd::prelude::*;
use super::duty::Duty;
use super::timer::Timer;

verus! {

/// The frequency after one sweep step.
pub open spec fn swept(frequency: u16, shift: u8, decreasing: bool) -> int {
    if decreasing {
        frequency - (frequency >> shift)
    } else {
        frequency + (frequency >> shift)
    }
}

/// The frequency sweep of channel 1.
pub struct Sweep {
    pub timer: Timer,
    /// shadow frequency
    pub frequency: u16,
    /// NR10 bits 0-2
    pub shift: u8,
    /// NR10 bit 3
    pub decreasing: bool,
    pub enable: bool,
}

/// One sweep clock of channel 1 from `before` to `after`, with the duty unit and the
/// channel enable it drives.
pub open spec fn sweep_stepped(
    after: &Sweep,
    duty_after: &Duty,
    enable_after: bool,
    before: &Sweep,
    duty_before: &Duty,
    enable_before: bool,
) -> bool {
    &&& (after.shift == before.shift)
    &&& (after.decreasing == before.decreasing)
    &&& (after.enable == before.enable)
    &&& (after.timer.period == before.timer.period)
    &&& (duty_after.pattern == duty_before.pattern && duty_after.position == duty_before.position
            && duty_after.state == duty_before.state && duty_after.enable == duty_before.enable
            && duty_after.timer == duty_before.timer)
    &&& (({
            let fires = before.enable && before.timer.counter == 0 && before.timer.period
                != 0;
            let next = swept(before.frequency, before.shift, before.decreasing);
            let taken = fires && before.shift != 0 && next < 2048;
            &&& after.frequency == if taken {
                next as u16
            } else {
                before.frequency
            }
            &&& duty_after.frequency == if taken {
                next as u16
            } else {
                duty_before.frequency
            }
            &&& enable_after == (enable_before && !(fires && swept(
                after.frequency,
                before.shift,
                before.decreasing,
            ) >= 2048))
        }))
}

impl Sweep {
    pub fn new() -> (r: Sweep)
        ensures
            r.wf(),
            r.frequency == 0 && r.shift == 0 && !r.decreasing && !r.enable,
            r.timer.counter == 0 && r.timer.period == 0,
    {
        Sweep { timer: Timer::new(), frequency: 0, shift: 0, decreasing: false, enable: false }
    }

    pub open spec fn wf(&self) -> bool {
        self.frequency < 2048 && self.shift < 8
    }

    /// One sweep clock: when its timer runs out with a non-zero period, the new
    /// frequency is taken if it is below 2048 and the shift is not zero; a next step
    /// that would reach 2048 silences the channel.
    pub fn tick(&mut self, duty: &mut Duty, channel_enable: &mut bool)
        requires
            old(self).wf(),
            old(duty).wf(),
        ensures
            final(self).wf(),
            final(duty).wf(),
            sweep_stepped(final(self), final(duty), *final(channel_enable), old(self), old(duty), *old(channel_enable)),
    {
        let fired = self.enable && self.timer.tick();
        if fired && self.timer.period != 0 {
            let sweep_frequency = self.calc_frequency();
            if self.shift != 0 && sweep_frequency < 2048 {
                self.frequency = sweep_frequency;
                duty.frequency = sweep_frequency;
            }

            let sweep_frequency = self.calc_frequency();
            if sweep_frequency >= 2048 {
                *channel_enable = false;
            }
        }
    }

    /// The frequency one step on; nothing changes.
    pub fn calc_frequency(&mut self) -> (r: u16)
        requires
            old(self).wf(),
        ensures
            r == swept(old(self).frequency, old(self).shift, old(self).decreasing),
            *final(self) == *old(self),
    {
        let f = self.frequency;
        let shift = self.shift;
        assert(f >> shift <= f) by (bit_vector);
        if self.decreasing {
            f - (f >> self.shift)
        } else {
            f + (f >> self.shift)
        }
    }
}

} // verus!
