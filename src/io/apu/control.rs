use vstd::prelude::*;
use super::Apu;
use super::channel::Channel;
use super::sweep::{swept, sweep_stepped};
use super::envelope::envelope_stepped;

verus! {

/// Whether a length clock at step `step` of the sequencer runs the counter out.
pub open spec fn length_expires(ch: &Channel, step: u8) -> bool {
    step % 2 == 0 && ch.length.enable && ch.length.counter == 1
}

/// The length counter after a sequencer step.
pub open spec fn length_after(ch: &Channel, step: u8) -> u16 {
    if step % 2 == 0 && ch.length.enable && ch.length.counter > 0 {
        (ch.length.counter - 1) as u16
    } else {
        ch.length.counter
    }
}

/// The settings of a channel, those the registers write, are as in `before`.
pub open spec fn settings_kept(after: &Channel, before: &Channel) -> bool {
    &&& after.dac == before.dac && after.left == before.left && after.right == before.right
    &&& after.length.enable == before.length.enable
    &&& after.duty.pattern == before.duty.pattern && after.duty.frequency == before.duty.frequency
    &&& after.duty.timer.period == before.duty.timer.period
    &&& after.envelope.start_volume == before.envelope.start_volume
    &&& after.envelope.increase == before.envelope.increase
    &&& after.envelope.timer.period == before.envelope.timer.period
    &&& after.sweep.shift == before.sweep.shift && after.sweep.decreasing == before.sweep.decreasing
    &&& after.sweep.timer.period == before.sweep.timer.period
    &&& after.wave.frequency == before.wave.frequency && after.wave.shift == before.wave.shift
    &&& after.wave.timer.period == before.wave.timer.period
    &&& after.noise.shift == before.noise.shift && after.noise.width_mode == before.noise.width_mode
    &&& after.noise.timer.period == before.noise.timer.period
}

/// Noise timer period for NR43: divisor code in bits 0-2, clock shift in bits 4-7.
pub open spec fn noise_period(value: u8) -> u32 {
    let code = value & 7;
    let divisor: u32 = if code == 0 { 8 } else { (16 * code) as u32 };
    divisor << ((value >> 4) as u32)
}

impl Apu {
    /// Every channel, the wave RAM, the mixer state and the registers but those of
    /// the given channel are unchanged.
    pub open spec fn same_outside(&self, o: &Apu) -> bool {
        &&& self.samples == o.samples && self.wave == o.wave
        &&& self.clock == o.clock && self.fs_clock == o.fs_clock
        &&& self.frame_sequence == o.frame_sequence
        &&& self.enable == o.enable
        &&& self.left_volume == o.left_volume && self.right_volume == o.right_volume
        &&& self.nr50 == o.nr50 && self.nr51 == o.nr51
    }

    /// The register bytes of the four channels are all zero.
    pub open spec fn channel_registers_cleared(&self) -> bool {
        &&& self.nr10 == 0 && self.nr11 == 0 && self.nr12 == 0 && self.nr13 == 0 && self.nr14 == 0
        &&& self.nr21 == 0 && self.nr22 == 0 && self.nr23 == 0 && self.nr24 == 0
        &&& self.nr30 == 0 && self.nr31 == 0 && self.nr32 == 0 && self.nr33 == 0 && self.nr34 == 0
        &&& self.nr41 == 0 && self.nr42 == 0 && self.nr43 == 0 && self.nr44 == 0
    }

    /// The register bytes of the four channels are unchanged.
    pub open spec fn same_channel_registers(&self, o: &Apu) -> bool {
        &&& self.nr10 == o.nr10 && self.nr11 == o.nr11 && self.nr12 == o.nr12
        &&& self.nr13 == o.nr13 && self.nr14 == o.nr14
        &&& self.nr21 == o.nr21 && self.nr22 == o.nr22 && self.nr23 == o.nr23 && self.nr24 == o.nr24
        &&& self.nr30 == o.nr30 && self.nr31 == o.nr31 && self.nr32 == o.nr32
        &&& self.nr33 == o.nr33 && self.nr34 == o.nr34
        &&& self.nr41 == o.nr41 && self.nr42 == o.nr42 && self.nr43 == o.nr43 && self.nr44 == o.nr44
    }

    /// One step of the frame sequencer: even steps clock the length counters, steps
    /// 2 and 6 the sweep of channel 1 while it is enabled, step 7 the envelopes.
    #[verifier::rlimit(100)]
    pub fn frame_sequencer(&mut self)
        requires
            old(self).wf(),
        ensures
            final(self).wf(),
            final(self).frame_sequence == (old(self).frame_sequence + 1) % 8,
            final(self).samples == old(self).samples && final(self).wave == old(self).wave,
            final(self).clock == old(self).clock && final(self).fs_clock == old(self).fs_clock,
            final(self).enable == old(self).enable,
            final(self).left_volume == old(self).left_volume,
            final(self).right_volume == old(self).right_volume,
            final(self).nr50 == old(self).nr50 && final(self).nr51 == old(self).nr51,
            final(self).ch1.length.counter == length_after(&old(self).ch1, old(self).frame_sequence),
            final(self).ch2.length.counter == length_after(&old(self).ch2, old(self).frame_sequence),
            final(self).ch3.length.counter == length_after(&old(self).ch3, old(self).frame_sequence),
            final(self).ch4.length.counter == length_after(&old(self).ch4, old(self).frame_sequence),
            final(self).ch1.enable ==> old(self).ch1.enable && !length_expires(
                &old(self).ch1,
                old(self).frame_sequence,
            ),
            old(self).frame_sequence != 2 && old(self).frame_sequence != 6 ==> final(self).ch1.enable
                == (old(self).ch1.enable && !length_expires(&old(self).ch1, old(self).frame_sequence)),
            final(self).ch2.enable == (old(self).ch2.enable && !length_expires(
                &old(self).ch2,
                old(self).frame_sequence,
            )),
            final(self).ch3.enable == (old(self).ch3.enable && !length_expires(
                &old(self).ch3,
                old(self).frame_sequence,
            )),
            final(self).ch4.enable == (old(self).ch4.enable && !length_expires(
                &old(self).ch4,
                old(self).frame_sequence,
            )),
            final(self).ch2.duty == old(self).ch2.duty && final(self).ch3.wave == old(self).ch3.wave
                && final(self).ch4.noise == old(self).ch4.noise,
            old(self).frame_sequence == 7 ==> envelope_stepped(&final(self).ch1.envelope, &old(self).ch1.envelope)
                && envelope_stepped(&final(self).ch2.envelope, &old(self).ch2.envelope)
                && envelope_stepped(&final(self).ch4.envelope, &old(self).ch4.envelope),
            ({
                let s = old(self).frame_sequence;
                let e = old(self).ch1.enable && !length_expires(&old(self).ch1, s);
                &&& (s == 2 || s == 6) && e ==> sweep_stepped(&final(self).ch1.sweep, &final(self).ch1.duty,
                    final(self).ch1.enable, &old(self).ch1.sweep, &old(self).ch1.duty, true)
                &&& (s == 2 || s == 6) && !e ==> final(self).ch1.sweep == old(self).ch1.sweep
                    && final(self).ch1.duty == old(self).ch1.duty && !final(self).ch1.enable
            }),
            old(self).frame_sequence != 7 ==> final(self).ch1.envelope == old(self).ch1.envelope
                && final(self).ch2.envelope == old(self).ch2.envelope && final(self).ch4.envelope
                == old(self).ch4.envelope,
            old(self).frame_sequence != 2 && old(self).frame_sequence != 6 ==> final(self).ch1.sweep
                == old(self).ch1.sweep && final(self).ch1.duty == old(self).ch1.duty,
    {
        let step = self.frame_sequence;
        if step % 2 == 0 {
            self.length_clock();
        }
        if self.ch1.enable && (step == 2 || step == 6) {
            self.sweep_clock();
        }
        if step == 7 {
            self.envelope_clock();
        }
        self.frame_sequence = (step + 1) % 8;
    }

    /// Clocks the four length counters.
    fn length_clock(&mut self)
        requires
            old(self).wf(),
        ensures
            final(self).wf(),
            final(self).same_outside(old(self)),
            final(self).ch1.length.counter == length_after(&old(self).ch1, 0),
            final(self).ch2.length.counter == length_after(&old(self).ch2, 0),
            final(self).ch3.length.counter == length_after(&old(self).ch3, 0),
            final(self).ch4.length.counter == length_after(&old(self).ch4, 0),
            final(self).ch1.enable == (old(self).ch1.enable && !length_expires(&old(self).ch1, 0)),
            final(self).ch2.enable == (old(self).ch2.enable && !length_expires(&old(self).ch2, 0)),
            final(self).ch3.enable == (old(self).ch3.enable && !length_expires(&old(self).ch3, 0)),
            final(self).ch4.enable == (old(self).ch4.enable && !length_expires(&old(self).ch4, 0)),
            final(self).ch1.envelope == old(self).ch1.envelope,
            final(self).ch2.envelope == old(self).ch2.envelope,
            final(self).ch4.envelope == old(self).ch4.envelope,
            final(self).ch1.sweep == old(self).ch1.sweep && final(self).ch1.duty == old(self).ch1.duty,
            final(self).ch1.length.enable == old(self).ch1.length.enable,
            final(self).ch2.length.enable == old(self).ch2.length.enable,
            final(self).ch3.length.enable == old(self).ch3.length.enable,
            final(self).ch4.length.enable == old(self).ch4.length.enable,
            final(self).ch2.duty == old(self).ch2.duty && final(self).ch3.wave == old(self).ch3.wave
                && final(self).ch4.noise == old(self).ch4.noise,
    {
        self.ch1.length_cycle();
        self.ch2.length_cycle();
        self.ch3.length_cycle();
        self.ch4.length_cycle();
    }

    /// Clocks the sweep of channel 1.
    fn sweep_clock(&mut self)
        requires
            old(self).wf(),
        ensures
            final(self).wf(),
            final(self).same_outside(old(self)),
            final(self).ch1.enable ==> old(self).ch1.enable,
            sweep_stepped(&final(self).ch1.sweep, &final(self).ch1.duty, final(self).ch1.enable,
                &old(self).ch1.sweep, &old(self).ch1.duty, old(self).ch1.enable),
            final(self).ch1.length == old(self).ch1.length,
            final(self).ch1.envelope == old(self).ch1.envelope,
            final(self).ch2 == old(self).ch2 && final(self).ch3 == old(self).ch3 && final(self).ch4
                == old(self).ch4,
    {
        self.ch1.sweep.tick(&mut self.ch1.duty, &mut self.ch1.enable);
    }

    /// Clocks the envelopes of channels 1, 2 and 4.
    fn envelope_clock(&mut self)
        requires
            old(self).wf(),
        ensures
            final(self).wf(),
            final(self).same_outside(old(self)),
            final(self).ch1.enable == old(self).ch1.enable && final(self).ch2.enable == old(self).ch2.enable
                && final(self).ch3 == old(self).ch3 && final(self).ch4.enable == old(self).ch4.enable,
            final(self).ch1.length == old(self).ch1.length && final(self).ch2.length == old(self).ch2.length
                && final(self).ch4.length == old(self).ch4.length,
            final(self).ch1.sweep == old(self).ch1.sweep && final(self).ch1.duty == old(self).ch1.duty,
            envelope_stepped(&final(self).ch1.envelope, &old(self).ch1.envelope),
            envelope_stepped(&final(self).ch2.envelope, &old(self).ch2.envelope),
            envelope_stepped(&final(self).ch4.envelope, &old(self).ch4.envelope),
            final(self).ch2.duty == old(self).ch2.duty && final(self).ch4.noise == old(self).ch4.noise,
    {
        self.ch1.envelope.tick();
        self.ch2.envelope.tick();
        self.ch4.envelope.tick();
    }

    /// Restarts channel 1: enabled, length reloaded to 64 if it ran out, envelope
    /// volume reloaded, sweep shadow frequency set; silenced at once if the first
    /// sweep step overflows or its DAC is off.
    #[verifier::rlimit(100)]
    pub fn ch1_trigger(&mut self)
        requires
            old(self).wf(),
        ensures
            settings_kept(&final(self).ch1, &old(self).ch1),
            final(self).ch1.duty.timer.counter == old(self).ch1.duty.timer.period,
            final(self).ch1.envelope.timer.counter == old(self).ch1.envelope.timer.period,
            final(self).ch1.sweep.timer.counter == old(self).ch1.sweep.timer.period,
            final(self).wf(),
            final(self).same_outside(old(self)),
            final(self).same_channel_registers(old(self)),
            final(self).ch1.length.enable == old(self).ch1.length.enable,
            final(self).ch1.duty.frequency == old(self).ch1.duty.frequency,
            final(self).ch1.length.counter == if old(self).ch1.length.counter == 0 {
                64
            } else {
                old(self).ch1.length.counter
            },
            final(self).ch1.envelope.volume == old(self).ch1.envelope.start_volume,
            final(self).ch1.sweep.frequency == old(self).ch1.duty.frequency,
            final(self).ch1.enable == (old(self).ch1.dac && !(old(self).ch1.sweep.shift > 0 && swept(
                old(self).ch1.duty.frequency,
                old(self).ch1.sweep.shift,
                old(self).ch1.sweep.decreasing,
            ) >= 2048)),
            final(self).ch1.duty.enable,
            final(self).ch2 == old(self).ch2 && final(self).ch3 == old(self).ch3 && final(self).ch4
                == old(self).ch4,
    {
        self.ch1.enable = true;
        self.ch1.duty.enable = true;
        if self.ch1.length.counter == 0 {
            self.ch1.length.counter = 64;
        }

        self.ch1.duty.timer.reset();
        self.ch1.envelope.timer.reset();
        self.ch1.sweep.timer.reset();

        self.ch1.envelope.enable = self.ch1.envelope.timer.period > 0;
        self.ch1.envelope.volume = self.ch1.envelope.start_volume;

        self.ch1.sweep.enable = self.ch1.sweep.shift > 0 || self.ch1.sweep.timer.period > 0;
        self.ch1.sweep.frequency = self.ch1.duty.frequency;

        if self.ch1.sweep.shift > 0 {
            let sweep_frequency = self.ch1.sweep.calc_frequency();
            if sweep_frequency >= 2048 {
                self.ch1.enable = false;
            }
        }

        if !self.ch1.dac {
            self.ch1.enable = false;
        }
    }

    /// Restarts channel 2: enabled unless its DAC is off, length reloaded to 64 if it
    /// ran out, envelope volume reloaded.
    pub fn ch2_trigger(&mut self)
        requires
            old(self).wf(),
        ensures
            settings_kept(&final(self).ch2, &old(self).ch2),
            final(self).ch2.duty.timer.counter == old(self).ch2.duty.timer.period,
            final(self).ch2.envelope.timer.counter == old(self).ch2.envelope.timer.period,
            final(self).wf(),
            final(self).same_outside(old(self)),
            final(self).same_channel_registers(old(self)),
            final(self).ch2.duty.frequency == old(self).ch2.duty.frequency,
            final(self).ch2.length.counter == if old(self).ch2.length.counter == 0 {
                64
            } else {
                old(self).ch2.length.counter
            },
            final(self).ch2.length.enable == old(self).ch2.length.enable,
            final(self).ch2.envelope.volume == old(self).ch2.envelope.start_volume,
            final(self).ch2.enable == old(self).ch2.dac,
            final(self).ch2.duty.enable,
            final(self).ch1 == old(self).ch1 && final(self).ch3 == old(self).ch3 && final(self).ch4
                == old(self).ch4,
    {
        self.ch2.enable = true;
        self.ch2.duty.enable = true;
        if self.ch2.length.counter == 0 {
            self.ch2.length.counter = 64;
        }

        self.ch2.duty.timer.reset();
        self.ch2.envelope.timer.reset();

        self.ch2.envelope.enable = self.ch2.envelope.timer.period > 0;
        self.ch2.envelope.volume = self.ch2.envelope.start_volume;

        if !self.ch2.dac {
            self.ch2.enable = false;
        }
    }

    /// Restarts channel 3: enabled unless its DAC is off, length reloaded to 256 if it
    /// ran out, wave position back to the start.
    pub fn ch3_trigger(&mut self)
        requires
            old(self).wf(),
        ensures
            settings_kept(&final(self).ch3, &old(self).ch3),
            final(self).ch3.wave.timer.counter == old(self).ch3.wave.timer.period,
            final(self).wf(),
            final(self).same_outside(old(self)),
            final(self).same_channel_registers(old(self)),
            final(self).ch3.length.enable == old(self).ch3.length.enable,
            final(self).ch3.wave.frequency == old(self).ch3.wave.frequency,
            final(self).ch3.length.counter == if old(self).ch3.length.counter == 0 {
                256
            } else {
                old(self).ch3.length.counter
            },
            final(self).ch3.wave.position == 0,
            final(self).ch3.enable == old(self).ch3.dac,
            final(self).ch1 == old(self).ch1 && final(self).ch2 == old(self).ch2 && final(self).ch4
                == old(self).ch4,
    {
        self.ch3.enable = true;
        if self.ch3.length.counter == 0 {
            self.ch3.length.counter = 256;
        }

        self.ch3.wave.position = 0;

        self.ch3.wave.timer.reset();

        if !self.ch3.dac {
            self.ch3.enable = false;
        }
    }

    /// Restarts channel 4: enabled unless its DAC is off, length reloaded to 64 if it
    /// ran out, envelope volume reloaded, shift register filled with ones.
    pub fn ch4_trigger(&mut self)
        requires
            old(self).wf(),
        ensures
            settings_kept(&final(self).ch4, &old(self).ch4),
            final(self).ch4.noise.timer.counter == old(self).ch4.noise.timer.period,
            final(self).ch4.envelope.timer.counter == old(self).ch4.envelope.timer.period,
            final(self).wf(),
            final(self).same_outside(old(self)),
            final(self).same_channel_registers(old(self)),
            final(self).ch4.length.enable == old(self).ch4.length.enable,
            final(self).ch4.length.counter == if old(self).ch4.length.counter == 0 {
                64
            } else {
                old(self).ch4.length.counter
            },
            final(self).ch4.envelope.volume == old(self).ch4.envelope.start_volume,
            final(self).ch4.noise.lfsr == 0x7fff,
            final(self).ch4.enable == old(self).ch4.dac,
            final(self).ch1 == old(self).ch1 && final(self).ch2 == old(self).ch2 && final(self).ch3
                == old(self).ch3,
    {
        self.ch4.enable = true;
        if self.ch4.length.counter == 0 {
            self.ch4.length.counter = 64;
        }

        self.ch4.noise.timer.reset();
        self.ch4.envelope.timer.reset();

        self.ch4.envelope.enable = self.ch4.envelope.timer.period > 0;
        self.ch4.envelope.volume = self.ch4.envelope.start_volume;

        self.ch4.noise.lfsr = 0x7fff;

        if !self.ch4.dac {
            self.ch4.enable = false;
        }
    }
}

} // verus!
