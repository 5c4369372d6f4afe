use vstd::prelude::*;
use super::timer::Timer;

verus! {

/// The volume envelope of channels 1, 2 and 4.
pub struct Envelope {
    pub timer: Timer,
    /// NRx2 bits 4-7
    pub start_volume: u8,
    pub volume: u8,
    /// NRx2 bit 3: the volume rises
    pub increase: bool,
    pub enable: bool,
}

/// One envelope clock from `before` to `after`: when its timer runs out the volume
/// moves one step in its direction; at 0 or 15 it stays and the envelope stops.
pub open spec fn envelope_stepped(after: &Envelope, before: &Envelope) -> bool {
    &&& (after.start_volume == before.start_volume)
    &&& (after.increase == before.increase)
    &&& (!before.enable ==> after.volume == before.volume && !after.enable
            && after.timer == before.timer)
    &&& (before.enable && before.timer.counter != 0 ==> after.volume == before.volume && after.enable && after.timer.counter == before.timer.counter
            - 1)
    &&& (before.enable && before.timer.counter == 0 ==> {
            if before.increase && before.volume < 15 {
                after.volume == before.volume + 1 && after.enable
            } else if !before.increase && before.volume > 0 {
                after.volume == before.volume - 1 && after.enable
            } else {
                after.volume == before.volume && !after.enable
            }
        })
}

impl Envelope {
    pub fn new() -> (r: Envelope)
        ensures
            r.wf(),
            r.volume == 0 && r.start_volume == 0 && !r.increase && !r.enable,
            r.timer.counter == 0 && r.timer.period == 0,
    {
        Envelope { timer: Timer::new(), start_volume: 0, volume: 0, increase: false, enable: false }
    }

    pub open spec fn wf(&self) -> bool {
        self.volume < 16 && self.start_volume < 16
    }

    /// One envelope clock: when its timer runs out the volume moves one step in its
    /// direction; at 0 or 15 it stays and the envelope stops.
    pub fn tick(&mut self)
        requires
            old(self).wf(),
        ensures
            final(self).wf(),
            envelope_stepped(final(self), old(self)),
    {
        if self.enable {
            if self.timer.period == 0 {
                self.timer.period = 8;
            }

            if self.timer.tick() {
                if self.increase && self.volume < 15 {
                    self.volume = self.volume + 1;
                } else if !self.increase && self.volume > 0 {
                    self.volume = self.volume - 1;
                } else {
                    self.enable = false;
                }
            }
        }
    }
}

} // verus!
