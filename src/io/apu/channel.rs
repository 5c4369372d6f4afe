use vstd::prelude::*;
use super::duty::Duty;
use super::envelope::Envelope;
use super::length::Length;
use super::noise::Noise;
use super::sweep::Sweep;
use super::wave::Wave;

verus! {

/// One sound channel; each uses the units its kind has.
pub struct Channel {
    pub dac: bool,
    pub left: bool,
    pub right: bool,
    pub length: Length,
    pub duty: Duty,
    pub envelope: Envelope,
    pub sweep: Sweep,
    pub wave: Wave,
    pub noise: Noise,
    pub enable: bool,
}

impl Channel {
    pub fn new() -> (r: Channel)
        ensures
            r.wf(),
            !r.dac && !r.left && !r.right && !r.enable,
            !r.length.enable && r.length.counter == 0,
    {
        Channel {
            dac: false,
            left: false,
            right: false,
            length: Length::new(),
            duty: Duty::new(),
            envelope: Envelope::new(),
            sweep: Sweep::new(),
            wave: Wave::new(),
            noise: Noise::new(),
            enable: false,
        }
    }

    pub open spec fn wf(&self) -> bool {
        self.duty.wf() && self.envelope.wf() && self.sweep.wf() && self.wave.wf()
    }

    /// One length clock: with counting enabled the counter steps down, and the
    /// channel is silenced when it reaches zero.
    pub fn length_cycle(&mut self)
        ensures
            final(self).length.enable == old(self).length.enable,
            old(self).length.enable && old(self).length.counter > 0 ==> final(self).length.counter
                == old(self).length.counter - 1 && final(self).enable == (old(self).enable
                && old(self).length.counter != 1),
            !(old(self).length.enable && old(self).length.counter > 0) ==> final(self).length
                == old(self).length && final(self).enable == old(self).enable,
            final(self).dac == old(self).dac && final(self).left == old(self).left
                && final(self).right == old(self).right,
            final(self).duty == old(self).duty && final(self).envelope == old(self).envelope
                && final(self).sweep == old(self).sweep && final(self).wave == old(self).wave
                && final(self).noise == old(self).noise,
    {
        if self.length.enable && self.length.counter > 0 {
            self.length.counter = self.length.counter - 1;
            if self.length.counter == 0 {
                self.enable = false;
            }
        }
    }
}

} // verus!
