use vstd::prelude::*;
use super::Apu;
use super::channel::Channel;
use super::control::noise_period;

verus! {

impl Apu {
    /// NR10: sweep period, direction and shift.
    pub fn set_nr10(&mut self, value: u8)
        requires
            old(self).wf(),
        ensures
            final(self).wf(),
            final(self).same_outside(old(self)),
            final(self).nr10 == value,
            final(self).ch1.sweep.timer.period == (value & 0x70) >> 4,
            final(self).ch1.sweep.decreasing == (value & 8 != 0),
            final(self).ch1.sweep.shift == value & 7,
            final(self).ch1.enable == old(self).ch1.enable,
    {
        self.nr10 = value;
        self.ch1.sweep.timer.period = ((value & 0x70) >> 4) as u32;
        self.ch1.sweep.decreasing = value & 8 != 0;
        self.ch1.sweep.shift = value & 7;
        assert(value & 7 < 8) by (bit_vector);
    }

    /// NR11: duty pattern and length.
    pub fn set_nr11(&mut self, value: u8)
        requires
            old(self).wf(),
        ensures
            final(self).wf(),
            final(self).same_outside(old(self)),
            final(self).nr11 == value,
            final(self).ch1.duty.pattern == value >> 6,
            final(self).ch1.length.counter == 64 - (value & 0x3f),
            final(self).ch1.enable == old(self).ch1.enable,
    {
        self.nr11 = value;
        self.ch1.duty.pattern = value >> 6;
        assert(value & 0x3f <= 63) by (bit_vector);
        self.ch1.length.counter = 64 - (value & 0x3f) as u16;
    }

    /// NR12: envelope start volume, direction and period; the DAC is off when the
    /// upper five bits are clear, which silences the channel.
    pub fn set_nr12(&mut self, value: u8)
        requires
            old(self).wf(),
        ensures
            final(self).wf(),
            final(self).same_outside(old(self)),
            final(self).nr12 == value,
            final(self).ch1.dac == (value & 0xf8 != 0),
            final(self).ch1.envelope.start_volume == value >> 4,
            final(self).ch1.envelope.increase == (value & 8 != 0),
            final(self).ch1.envelope.timer.period == value & 7,
            final(self).ch1.enable == (old(self).ch1.enable && value & 0xf8 != 0),
    {
        self.nr12 = value;
        self.ch1.dac = value & 0xf8 != 0;
        self.ch1.envelope.start_volume = value >> 4;
        assert(value >> 4 < 16) by (bit_vector);
        self.ch1.envelope.increase = value & 8 != 0;
        self.ch1.envelope.timer.period = (value & 7) as u32;
        if !self.ch1.dac {
            self.ch1.enable = false;
        }
    }

    /// NR13: low eight bits of the frequency.
    pub fn set_nr13(&mut self, value: u8)
        requires
            old(self).wf(),
        ensures
            final(self).wf(),
            final(self).same_outside(old(self)),
            final(self).nr13 == value,
            final(self).ch1.duty.frequency == (old(self).ch1.duty.frequency & 0x700) | value as u16,
            final(self).ch1.enable == old(self).ch1.enable,
    {
        self.nr13 = value;
        let f = self.ch1.duty.frequency;
        self.ch1.duty.frequency = (f & 0x700) | value as u16;
        assert(((f & 0x700) | (value as u16)) < 2048) by (bit_vector);
    }

    /// NR14: high three bits of the frequency, length enable, and trigger in bit 7.
    pub fn set_nr14(&mut self, value: u8)
        requires
            old(self).wf(),
        ensures
            final(self).wf(),
            final(self).same_outside(old(self)),
            final(self).nr14 == value,
            final(self).ch1.length.enable == (value & 0x40 != 0),
            final(self).ch1.duty.frequency == (old(self).ch1.duty.frequency & 0xff) | (((value & 7) as u16) << 8u16),
            value & 0x80 == 0 ==> final(self).ch1.enable == old(self).ch1.enable,
            value & 0x80 != 0 ==> final(self).ch1.duty.enable,
    {
        self.nr14 = value;
        self.ch1.length.enable = value & 0x40 != 0;
        let f = self.ch1.duty.frequency;
        self.ch1.duty.frequency = (f & 0xff) | (((value & 7) as u16) << 8u16);
        assert(((f & 0xff) | (((value & 7) as u16) << 8u16)) < 2048) by (bit_vector);
        if value & 0x80 != 0 {
            self.ch1_trigger();
        }
    }

    /// NR21: duty pattern and length of channel 2.
    pub fn set_nr21(&mut self, value: u8)
        requires
            old(self).wf(),
        ensures
            final(self).wf(),
            final(self).same_outside(old(self)),
            final(self).nr21 == value,
            final(self).ch2.duty.pattern == value >> 6,
            final(self).ch2.length.counter == 64 - (value & 0x3f),
            final(self).ch2.length.enable == old(self).ch2.length.enable,
            final(self).ch2.enable == old(self).ch2.enable,
    {
        self.nr21 = value;
        self.ch2.duty.pattern = value >> 6;
        assert(value & 0x3f <= 63) by (bit_vector);
        self.ch2.length.counter = 64 - (value & 0x3f) as u16;
    }

    /// NR22: envelope of channel 2, as NR12.
    pub fn set_nr22(&mut self, value: u8)
        requires
            old(self).wf(),
        ensures
            final(self).wf(),
            final(self).same_outside(old(self)),
            final(self).nr22 == value,
            final(self).ch2.dac == (value & 0xf8 != 0),
            final(self).ch2.envelope.start_volume == value >> 4,
            final(self).ch2.envelope.increase == (value & 8 != 0),
            final(self).ch2.envelope.timer.period == value & 7,
            final(self).ch2.length == old(self).ch2.length,
            final(self).ch2.enable == (old(self).ch2.enable && value & 0xf8 != 0),
    {
        self.nr22 = value;
        self.ch2.dac = value & 0xf8 != 0;
        self.ch2.envelope.start_volume = value >> 4;
        assert(value >> 4 < 16) by (bit_vector);
        self.ch2.envelope.increase = value & 8 != 0;
        self.ch2.envelope.timer.period = (value & 7) as u32;
        if !self.ch2.dac {
            self.ch2.enable = false;
        }
    }

    /// NR23: low eight bits of the frequency of channel 2.
    pub fn set_nr23(&mut self, value: u8)
        requires
            old(self).wf(),
        ensures
            final(self).wf(),
            final(self).same_outside(old(self)),
            final(self).nr23 == value,
            final(self).ch2.duty.frequency == (old(self).ch2.duty.frequency & 0x700) | value as u16,
            final(self).ch2.enable == old(self).ch2.enable,
    {
        self.nr23 = value;
        let f = self.ch2.duty.frequency;
        self.ch2.duty.frequency = (f & 0x700) | value as u16;
        assert(((f & 0x700) | (value as u16)) < 2048) by (bit_vector);
    }

    /// NR24: high frequency bits, length enable and trigger of channel 2.
    pub fn set_nr24(&mut self, value: u8)
        requires
            old(self).wf(),
        ensures
            final(self).wf(),
            final(self).same_outside(old(self)),
            final(self).nr24 == value,
            final(self).ch2.length.enable == (value & 0x40 != 0),
            final(self).ch2.length.counter == if value & 0x80 != 0 && old(self).ch2.length.counter
                == 0 {
                64
            } else {
                old(self).ch2.length.counter
            },
            final(self).ch2.enable == if value & 0x80 != 0 {
                old(self).ch2.dac
            } else {
                old(self).ch2.enable
            },
            value & 0x80 != 0 ==> final(self).ch2.envelope.volume == old(self).ch2.envelope.start_volume,
    {
        self.nr24 = value;
        self.ch2.length.enable = value & 0x40 != 0;
        let f = self.ch2.duty.frequency;
        self.ch2.duty.frequency = (f & 0xff) | (((value & 7) as u16) << 8u16);
        assert(((f & 0xff) | (((value & 7) as u16) << 8u16)) < 2048) by (bit_vector);
        if value & 0x80 != 0 {
            self.ch2_trigger();
        }
    }

    /// NR30: DAC of channel 3 in bit 7.
    pub fn set_nr30(&mut self, value: u8)
        requires
            old(self).wf(),
        ensures
            final(self).wf(),
            final(self).same_outside(old(self)),
            final(self).nr30 == value,
            final(self).ch3.dac == (value & 0x80 != 0),
            final(self).ch3.enable == (old(self).ch3.enable && value & 0x80 != 0),
    {
        self.nr30 = value;
        self.ch3.dac = value & 0x80 != 0;
        if !self.ch3.dac {
            self.ch3.enable = false;
        }
    }

    /// NR31: length of channel 3.
    pub fn set_nr31(&mut self, value: u8)
        requires
            old(self).wf(),
        ensures
            final(self).wf(),
            final(self).same_outside(old(self)),
            final(self).nr31 == value,
            final(self).ch3.length.counter == 256 - value,
            final(self).ch3.enable == old(self).ch3.enable,
    {
        self.nr31 = value;
        self.ch3.length.counter = 256 - value as u16;
    }

    /// NR32: volume code of channel 3 in bits 5-6.
    pub fn set_nr32(&mut self, value: u8)
        requires
            old(self).wf(),
        ensures
            final(self).wf(),
            final(self).same_outside(old(self)),
            final(self).nr32 == value,
            final(self).ch3.wave.shift == (value >> 5) & 3,
            final(self).ch3.enable == old(self).ch3.enable,
    {
        self.nr32 = value;
        self.ch3.wave.shift = (value >> 5) & 3;
        assert((value >> 5) & 3 < 4) by (bit_vector);
    }

    /// NR33: low eight bits of the frequency of channel 3.
    pub fn set_nr33(&mut self, value: u8)
        requires
            old(self).wf(),
        ensures
            final(self).wf(),
            final(self).same_outside(old(self)),
            final(self).nr33 == value,
            final(self).ch3.wave.frequency == (old(self).ch3.wave.frequency & 0x700) | value as u16,
            final(self).ch3.enable == old(self).ch3.enable,
    {
        self.nr33 = value;
        let f = self.ch3.wave.frequency;
        self.ch3.wave.frequency = (f & 0x700) | value as u16;
        assert(((f & 0x700) | (value as u16)) < 2048) by (bit_vector);
    }

    /// NR34: high frequency bits, length enable and trigger of channel 3.
    pub fn set_nr34(&mut self, value: u8)
        requires
            old(self).wf(),
        ensures
            final(self).wf(),
            final(self).same_outside(old(self)),
            final(self).nr34 == value,
            final(self).ch3.length.enable == (value & 0x40 != 0),
            final(self).ch3.enable == if value & 0x80 != 0 {
                old(self).ch3.dac
            } else {
                old(self).ch3.enable
            },
    {
        self.nr34 = value;
        self.ch3.length.enable = value & 0x40 != 0;
        let f = self.ch3.wave.frequency;
        self.ch3.wave.frequency = (f & 0xff) | (((value & 7) as u16) << 8u16);
        assert(((f & 0xff) | (((value & 7) as u16) << 8u16)) < 2048) by (bit_vector);
        if value & 0x80 != 0 {
            self.ch3_trigger();
        }
    }

    /// NR41: length of channel 4.
    pub fn set_nr41(&mut self, value: u8)
        requires
            old(self).wf(),
        ensures
            final(self).wf(),
            final(self).same_outside(old(self)),
            final(self).nr41 == value,
            final(self).ch4.length.counter == 64 - (value & 0x3f),
            final(self).ch4.enable == old(self).ch4.enable,
    {
        self.nr41 = value;
        assert(value & 0x3f <= 63) by (bit_vector);
        self.ch4.length.counter = 64 - (value & 0x3f) as u16;
    }

    /// NR42: envelope of channel 4, as NR12.
    pub fn set_nr42(&mut self, value: u8)
        requires
            old(self).wf(),
        ensures
            final(self).wf(),
            final(self).same_outside(old(self)),
            final(self).nr42 == value,
            final(self).ch4.dac == (value & 0xf8 != 0),
            final(self).ch4.envelope.start_volume == value >> 4,
            final(self).ch4.envelope.increase == (value & 8 != 0),
            final(self).ch4.envelope.timer.period == value & 7,
            final(self).ch4.enable == (old(self).ch4.enable && value & 0xf8 != 0),
    {
        self.nr42 = value;
        self.ch4.dac = value & 0xf8 != 0;
        self.ch4.envelope.start_volume = value >> 4;
        assert(value >> 4 < 16) by (bit_vector);
        self.ch4.envelope.increase = value & 8 != 0;
        self.ch4.envelope.timer.period = (value & 7) as u32;
        if !self.ch4.dac {
            self.ch4.enable = false;
        }
    }

    /// NR43: clock shift, width mode and divisor of the noise generator.
    pub fn set_nr43(&mut self, value: u8)
        requires
            old(self).wf(),
        ensures
            final(self).wf(),
            final(self).same_outside(old(self)),
            final(self).nr43 == value,
            final(self).ch4.noise.shift == value >> 4,
            final(self).ch4.noise.width_mode == (value & 8 != 0),
            final(self).ch4.noise.timer.period == noise_period(value),
            final(self).ch4.enable == old(self).ch4.enable,
    {
        self.nr43 = value;
        let shift = value >> 4;
        let code = value & 7;
        assert(shift < 16 && code < 8) by (bit_vector)
            requires
                shift == value >> 4,
                code == value & 7,
        ;
        let divisor: u32 = if code == 0 { 8 } else { (16 * code) as u32 };
        self.ch4.noise.shift = shift;
        self.ch4.noise.width_mode = value & 8 != 0;
        self.ch4.noise.timer.period = divisor << shift as u32;
    }

    /// NR44: length enable and trigger of channel 4.
    pub fn set_nr44(&mut self, value: u8)
        requires
            old(self).wf(),
        ensures
            final(self).wf(),
            final(self).same_outside(old(self)),
            final(self).nr44 == value,
            final(self).ch4.length.enable == (value & 0x40 != 0),
            final(self).ch4.enable == if value & 0x80 != 0 {
                old(self).ch4.dac
            } else {
                old(self).ch4.enable
            },
    {
        self.nr44 = value;
        self.ch4.length.enable = value & 0x40 != 0;
        if value & 0x80 != 0 {
            self.ch4_trigger();
        }
    }

    /// NR50: master volume of each side.
    pub fn set_nr50(&mut self, value: u8)
        requires
            old(self).wf(),
        ensures
            final(self).wf(),
            final(self).nr50 == value,
            final(self).right_volume == value & 7,
            final(self).left_volume == (value >> 4) & 7,
            final(self).ch1 == old(self).ch1 && final(self).ch2 == old(self).ch2
                && final(self).ch3 == old(self).ch3 && final(self).ch4 == old(self).ch4,
            final(self).samples == old(self).samples && final(self).enable == old(self).enable,
            final(self).nr51 == old(self).nr51,
    {
        self.nr50 = value;
        self.right_volume = value & 7;
        self.left_volume = (value >> 4) & 7;
        assert(value & 7 < 8 && (value >> 4) & 7 < 8) by (bit_vector);
    }

    /// NR51: bits 0-3 route channels 1-4 to the right, bits 4-7 to the left.
    pub fn set_nr51(&mut self, value: u8)
        requires
            old(self).wf(),
        ensures
            final(self).wf(),
            final(self).nr51 == value,
            final(self).ch1.right == (value & 0x01 != 0) && final(self).ch2.right == (value & 0x02 != 0),
            final(self).ch3.right == (value & 0x04 != 0) && final(self).ch4.right == (value & 0x08 != 0),
            final(self).ch1.left == (value & 0x10 != 0) && final(self).ch2.left == (value & 0x20 != 0),
            final(self).ch3.left == (value & 0x40 != 0) && final(self).ch4.left == (value & 0x80 != 0),
            final(self).ch1.enable == old(self).ch1.enable && final(self).ch2.enable == old(self).ch2.enable
                && final(self).ch3.enable == old(self).ch3.enable && final(self).ch4.enable
                == old(self).ch4.enable,
            final(self).samples == old(self).samples && final(self).enable == old(self).enable,
            final(self).nr50 == old(self).nr50,
    {
        self.nr51 = value;
        self.ch1.right = value & 0x01 != 0;
        self.ch2.right = value & 0x02 != 0;
        self.ch3.right = value & 0x04 != 0;
        self.ch4.right = value & 0x08 != 0;
        self.ch1.left = value & 0x10 != 0;
        self.ch2.left = value & 0x20 != 0;
        self.ch3.left = value & 0x40 != 0;
        self.ch4.left = value & 0x80 != 0;
    }

    /// NR52: bit 7 switches the unit on or off; switching off clears every register
    /// and silences every channel, keeping wave RAM.
    pub fn set_nr52(&mut self, value: u8)
        requires
            old(self).wf(),
        ensures
            final(self).wf(),
            final(self).enable == (value & 0x80 != 0),
            final(self).wave == old(self).wave,
            value & 0x80 != 0 ==> final(self).same_channel_registers(old(self)) && final(self).nr50 == old(self).nr50
                && final(self).nr51 == old(self).nr51 && final(self).left_volume == old(self).left_volume
                && final(self).right_volume == old(self).right_volume && final(self).clock == old(self).clock
                && final(self).fs_clock == old(self).fs_clock && final(self).frame_sequence
                == old(self).frame_sequence,
            value & 0x80 != 0 ==> final(self).nr52 == value && final(self).ch1 == old(self).ch1
                && final(self).ch2 == old(self).ch2 && final(self).ch3 == old(self).ch3
                && final(self).ch4 == old(self).ch4 && final(self).samples == old(self).samples,
            value & 0x80 == 0 ==> !final(self).ch1.enable && !final(self).ch2.enable
                && !final(self).ch3.enable && !final(self).ch4.enable && final(self).nr52 == 0
                && final(self).channel_registers_cleared() && final(self).nr50 == 0 && final(self).nr51 == 0
                && final(self).samples@ == old(self).samples@,
    {
        if value & 0x80 != 0 {
            self.nr52 = value;
            self.enable = true;
        } else {
            self.left_volume = 0;
            self.right_volume = 0;
            self.nr10 = 0;
            self.nr11 = 0;
            self.nr12 = 0;
            self.nr13 = 0;
            self.nr14 = 0;
            self.nr21 = 0;
            self.nr22 = 0;
            self.nr23 = 0;
            self.nr24 = 0;
            self.nr30 = 0;
            self.nr31 = 0;
            self.nr32 = 0;
            self.nr33 = 0;
            self.nr34 = 0;
            self.nr41 = 0;
            self.nr42 = 0;
            self.nr43 = 0;
            self.nr44 = 0;
            self.nr50 = 0;
            self.nr51 = 0;
            self.nr52 = 0;
            self.ch1 = Channel::new();
            self.ch2 = Channel::new();
            self.ch3 = Channel::new();
            self.ch4 = Channel::new();
            self.clock = 0;
            self.fs_clock = 0;
            self.frame_sequence = 0;
            self.update = false;
            self.enable = false;
        }
    }
}

} // verus!
