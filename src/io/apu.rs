pub mod channel;
pub mod control;
pub mod duty;
pub mod envelope;
pub mod length;
pub mod noise;
pub mod registers;
pub mod sweep;
pub mod timer;
pub mod wave;

use vstd::prelude::*;
use self::channel::Channel;
use self::wave::WAVE_SIZE;
use self::control::{length_after, length_expires};
use self::duty::{Duty, duty_stepped};
use self::envelope::envelope_stepped;
use self::sweep::sweep_stepped;
use self::noise::noise_stepped;
use self::wave::wave_stepped;

verus! {

/// Clock rate of the machine in Hz.
pub const FREQUENCY: u32 = 4_194_304;
/// Output samples per second.
pub const SAMPLE_RATE: u32 = 48000;
/// Clocks between two output samples: FREQUENCY / SAMPLE_RATE.
pub const CYCLES_PER_SAMPLE: u32 = 87;
/// Clocks between two frame sequencer steps.
pub const FRAME_SEQUENCER_PERIOD: u32 = 8192;
/// Output values kept for the host before new ones are dropped.
pub const SAMPLE_CAPACITY: usize = 8192;
/// Amplitude of one volume step of one channel.
pub const AMP_BASE: i32 = 31;
/// Offset that centres one channel around zero.
pub const AMP_HALF: i32 = 255;

/// A square generator after one clock of the APU: stepped when enabled, else kept.
pub open spec fn duty_clocked(after: &Duty, before: &Duty) -> bool {
    if before.enable { duty_stepped(after, before) } else { *after == *before }
}

/// What one enabled channel adds to an output of the mixer.
pub open spec fn contribution(enabled: bool, amplitude: u8, routed: bool, volume: u8) -> int {
    if enabled {
        AMP_BASE * amplitude * (if routed { 1int } else { 0 }) * volume - AMP_HALF
    } else {
        0
    }
}

/// The audio processing unit: four channels, the frame sequencer and the mixer.
pub struct Apu {
    /// NR50 bits 4-6
    pub left_volume: u8,
    /// NR50 bits 0-2
    pub right_volume: u8,
    pub nr10: u8,
    pub nr11: u8,
    pub nr12: u8,
    pub nr13: u8,
    pub nr14: u8,
    pub nr21: u8,
    pub nr22: u8,
    pub nr23: u8,
    pub nr24: u8,
    pub nr30: u8,
    pub nr31: u8,
    pub nr32: u8,
    pub nr33: u8,
    pub nr34: u8,
    pub nr41: u8,
    pub nr42: u8,
    pub nr43: u8,
    pub nr44: u8,
    pub nr50: u8,
    pub nr51: u8,
    pub nr52: u8,
    /// tone and sweep
    pub ch1: Channel,
    /// tone
    pub ch2: Channel,
    /// wave output
    pub ch3: Channel,
    /// noise
    pub ch4: Channel,
    /// wave RAM
    pub wave: Vec<u8>,
    /// clocks since the last output sample
    pub clock: u32,
    /// clocks since the last frame sequencer step
    pub fs_clock: u32,
    /// next frame sequencer step, 0 to 7
    pub frame_sequence: u8,
    /// output samples produced
    pub sample: u32,
    pub output_left: i16,
    pub output_right: i16,
    /// a sample was produced by the last clock
    pub update: bool,
    /// output values, left then right, not yet taken by the host
    pub samples: Vec<i16>,
    /// NR52 bit 7
    pub enable: bool,
}

impl Apu {
    pub open spec fn wf(&self) -> bool {
        &&& self.ch1.wf() && self.ch2.wf() && self.ch3.wf() && self.ch4.wf()
        &&& self.wave@.len() == WAVE_SIZE
        &&& self.left_volume < 8 && self.right_volume < 8
        &&& self.clock < CYCLES_PER_SAMPLE
        &&& self.fs_clock < FRAME_SEQUENCER_PERIOD
        &&& self.frame_sequence < 8
        &&& self.samples@.len() <= SAMPLE_CAPACITY
    }

    /// Level of a square channel: its envelope volume while the wave is high.
    pub open spec fn square_amplitude(ch: &Channel) -> u8 {
        if ch.duty.state { ch.envelope.volume } else { 0 }
    }

    /// Level of the wave channel: the sample shifted by its volume code.
    pub open spec fn wave_amplitude(ch: &Channel) -> u8 {
        if ch.wave.shift == 0 {
            0
        } else {
            ch.wave.output >> ((ch.wave.shift - 1) as u8)
        }
    }

    /// Level of the noise channel: its envelope volume while the output is high.
    pub open spec fn noise_amplitude(ch: &Channel) -> u8 {
        if ch.noise.state { ch.envelope.volume } else { 0 }
    }

    /// Left output of the mixer for the current channel levels.
    pub open spec fn mix_left(&self) -> int {
        contribution(self.ch1.enable, Apu::square_amplitude(&self.ch1), self.ch1.left, self.left_volume)
            + contribution(self.ch2.enable, Apu::square_amplitude(&self.ch2), self.ch2.left, self.left_volume)
            + contribution(self.ch3.enable, Apu::wave_amplitude(&self.ch3), self.ch3.left, self.left_volume)
            + contribution(self.ch4.enable, Apu::noise_amplitude(&self.ch4), self.ch4.left, self.left_volume)
    }

    /// Right output of the mixer for the current channel levels.
    pub open spec fn mix_right(&self) -> int {
        contribution(self.ch1.enable, Apu::square_amplitude(&self.ch1), self.ch1.right, self.right_volume)
            + contribution(self.ch2.enable, Apu::square_amplitude(&self.ch2), self.ch2.right, self.right_volume)
            + contribution(self.ch3.enable, Apu::wave_amplitude(&self.ch3), self.ch3.right, self.right_volume)
            + contribution(self.ch4.enable, Apu::noise_amplitude(&self.ch4), self.ch4.right, self.right_volume)
    }

    pub fn new() -> (r: Apu)
        ensures
            r.wf(),
            !r.enable,
            !r.ch1.enable && !r.ch2.enable && !r.ch3.enable && !r.ch4.enable,
            r.samples@.len() == 0,
            r.clock == 0 && r.fs_clock == 0 && r.frame_sequence == 0,
            forall|i: int| 0 <= i < WAVE_SIZE ==> #[trigger] r.wave@[i] == 0,
    {
        Apu {
            left_volume: 0,
            right_volume: 0,
            nr10: 0,
            nr11: 0,
            nr12: 0,
            nr13: 0,
            nr14: 0,
            nr21: 0,
            nr22: 0,
            nr23: 0,
            nr24: 0,
            nr30: 0,
            nr31: 0,
            nr32: 0,
            nr33: 0,
            nr34: 0,
            nr41: 0,
            nr42: 0,
            nr43: 0,
            nr44: 0,
            nr50: 0,
            nr51: 0,
            nr52: 0,
            ch1: Channel::new(),
            ch2: Channel::new(),
            ch3: Channel::new(),
            ch4: Channel::new(),
            wave: vec![0u8; WAVE_SIZE],
            clock: 0,
            fs_clock: 0,
            frame_sequence: 0,
            sample: 0,
            output_left: 0,
            output_right: 0,
            update: false,
            samples: Vec::new(),
            enable: false,
        }
    }

    /// Advances one clock. While enabled the generators run, every 8192 clocks the
    /// frame sequencer steps, and every 87 clocks the mixer produces one sample pair,
    /// kept for the host while there is room and dropped otherwise. A clock never
    /// enables a channel.
    #[verifier::rlimit(100)]
    pub fn tick(&mut self)
        requires
            old(self).wf(),
        ensures
            final(self).wf(),
            final(self).enable == old(self).enable,
            final(self).wave == old(self).wave,
            final(self).nr50 == old(self).nr50 && final(self).nr51 == old(self).nr51,
            !old(self).enable ==> final(self).samples == old(self).samples && !final(self).update
                && final(self).ch1 == old(self).ch1 && final(self).ch2 == old(self).ch2
                && final(self).ch3 == old(self).ch3 && final(self).ch4 == old(self).ch4
                && final(self).output_left == old(self).output_left && final(self).output_right
                == old(self).output_right
                && final(self).clock == old(self).clock && final(self).fs_clock == old(self).fs_clock
                && final(self).frame_sequence == old(self).frame_sequence,
            old(self).enable ==> {
                let step = old(self).fs_clock + 1 == FRAME_SEQUENCER_PERIOD;
                let emit = old(self).clock + 1 == CYCLES_PER_SAMPLE;
                &&& final(self).fs_clock == (old(self).fs_clock + 1) % (FRAME_SEQUENCER_PERIOD as int)
                &&& final(self).frame_sequence == if step {
                    (old(self).frame_sequence + 1) % 8
                } else {
                    old(self).frame_sequence as int
                }
                &&& final(self).clock == (old(self).clock + 1) % (CYCLES_PER_SAMPLE as int)
                &&& final(self).update == emit
                &&& emit ==> final(self).output_left == final(self).mix_left()
                    && final(self).output_right == final(self).mix_right()
                &&& final(self).samples@ == if emit && old(self).samples@.len() + 2 <= SAMPLE_CAPACITY {
                    old(self).samples@.push(final(self).output_left).push(final(self).output_right)
                } else {
                    old(self).samples@
                }
                &&& step ==> final(self).ch1.length.counter == length_after(&old(self).ch1, old(self).frame_sequence)
                    && final(self).ch2.length.counter == length_after(&old(self).ch2, old(self).frame_sequence)
                    && final(self).ch3.length.counter == length_after(&old(self).ch3, old(self).frame_sequence)
                    && final(self).ch4.length.counter == length_after(&old(self).ch4, old(self).frame_sequence)
                &&& step ==> final(self).ch2.enable == (old(self).ch2.enable && !length_expires(&old(self).ch2, old(self).frame_sequence))
                    && final(self).ch3.enable == (old(self).ch3.enable && !length_expires(&old(self).ch3, old(self).frame_sequence))
                    && final(self).ch4.enable == (old(self).ch4.enable && !length_expires(&old(self).ch4, old(self).frame_sequence))
                    && (final(self).ch1.enable ==> !length_expires(&old(self).ch1, old(self).frame_sequence))
                &&& step && old(self).frame_sequence != 2 && old(self).frame_sequence != 6 ==> final(self).ch1.enable
                    == (old(self).ch1.enable && !length_expires(&old(self).ch1, old(self).frame_sequence))
                &&& step && old(self).frame_sequence == 7 ==> envelope_stepped(&final(self).ch1.envelope, &old(self).ch1.envelope)
                    && envelope_stepped(&final(self).ch2.envelope, &old(self).ch2.envelope)
                    && envelope_stepped(&final(self).ch4.envelope, &old(self).ch4.envelope)
                &&& step && (old(self).frame_sequence == 2 || old(self).frame_sequence == 6) ==> {
                    let e = old(self).ch1.enable && !length_expires(&old(self).ch1, old(self).frame_sequence);
                    &&& e ==> exists|d: Duty|
                        #[trigger] duty_clocked(&d, &old(self).ch1.duty) && sweep_stepped(
                            &final(self).ch1.sweep,
                            &final(self).ch1.duty,
                            final(self).ch1.enable,
                            &old(self).ch1.sweep,
                            &d,
                            true,
                        )
                    &&& !e ==> final(self).ch1.sweep == old(self).ch1.sweep && !final(self).ch1.enable
                }
                &&& !step ==> final(self).ch1.length == old(self).ch1.length && final(self).ch2.length
                    == old(self).ch2.length && final(self).ch3.length == old(self).ch3.length
                    && final(self).ch4.length == old(self).ch4.length
                &&& old(self).ch2.duty.enable ==> duty_stepped(&final(self).ch2.duty, &old(self).ch2.duty)
                &&& !old(self).ch2.duty.enable ==> final(self).ch2.duty == old(self).ch2.duty
                &&& wave_stepped(&final(self).ch3.wave, &old(self).ch3.wave, old(self).wave@)
                &&& noise_stepped(&final(self).ch4.noise, &old(self).ch4.noise)
                &&& !step && old(self).ch1.duty.enable ==> duty_stepped(&final(self).ch1.duty, &old(self).ch1.duty)
                &&& !step ==> final(self).ch1.enable == old(self).ch1.enable && final(self).ch2.enable
                    == old(self).ch2.enable && final(self).ch3.enable == old(self).ch3.enable
                    && final(self).ch4.enable == old(self).ch4.enable
            },
            final(self).ch1.enable ==> old(self).ch1.enable,
            final(self).ch2.enable ==> old(self).ch2.enable,
            final(self).ch3.enable ==> old(self).ch3.enable,
            final(self).ch4.enable ==> old(self).ch4.enable,
    {
        if !self.enable {
            self.update = false;
            return;
        }
        self.run_generators();
        let ghost mid = *self;

        if self.fs_clock + 1 == FRAME_SEQUENCER_PERIOD {
            self.fs_clock = 0;
            self.frame_sequencer();
            assert(duty_clocked(&mid.ch1.duty, &old(self).ch1.duty));
        } else {
            self.fs_clock = self.fs_clock + 1;
        }

        if self.clock + 1 == CYCLES_PER_SAMPLE {
            self.clock = 0;
            self.emit_sample();
        } else {
            self.clock = self.clock + 1;
            self.update = false;
        }
    }

    /// Advances the square, wave and noise generators by one clock.
    fn run_generators(&mut self)
        requires
            old(self).wf(),
        ensures
            final(self).wf(),
            final(self).same_outside(old(self)),
            final(self).ch1.enable == old(self).ch1.enable && final(self).ch2.enable == old(self).ch2.enable
                && final(self).ch3.enable == old(self).ch3.enable && final(self).ch4.enable
                == old(self).ch4.enable,
            final(self).ch1.length == old(self).ch1.length && final(self).ch2.length == old(self).ch2.length
                && final(self).ch3.length == old(self).ch3.length && final(self).ch4.length
                == old(self).ch4.length,
            duty_clocked(&final(self).ch1.duty, &old(self).ch1.duty),
            old(self).ch2.duty.enable ==> duty_stepped(&final(self).ch2.duty, &old(self).ch2.duty),
            !old(self).ch2.duty.enable ==> final(self).ch2.duty == old(self).ch2.duty,
            wave_stepped(&final(self).ch3.wave, &old(self).ch3.wave, old(self).wave@),
            noise_stepped(&final(self).ch4.noise, &old(self).ch4.noise),
            final(self).ch1.sweep == old(self).ch1.sweep && final(self).ch1.envelope == old(self).ch1.envelope
                && final(self).ch2.envelope == old(self).ch2.envelope && final(self).ch4.envelope
                == old(self).ch4.envelope,
    {
        if self.ch1.duty.enable {
            self.ch1.duty.tick();
        }
        if self.ch2.duty.enable {
            self.ch2.duty.tick();
        }
        self.ch3.wave.tick(&self.wave);
        self.ch4.noise.tick();
    }

    /// Mixes one sample pair and queues it while there is room.
    fn emit_sample(&mut self)
        requires
            old(self).wf(),
        ensures
            final(self).wf(),
            final(self).update,
            final(self).output_left == old(self).mix_left(),
            final(self).output_right == old(self).mix_right(),
            final(self).ch1 == old(self).ch1 && final(self).ch2 == old(self).ch2
                && final(self).ch3 == old(self).ch3 && final(self).ch4 == old(self).ch4,
            final(self).wave == old(self).wave,
            final(self).clock == old(self).clock && final(self).fs_clock == old(self).fs_clock,
            final(self).frame_sequence == old(self).frame_sequence,
            final(self).enable == old(self).enable,
            final(self).left_volume == old(self).left_volume,
            final(self).right_volume == old(self).right_volume,
            final(self).nr50 == old(self).nr50 && final(self).nr51 == old(self).nr51,
            final(self).samples@ == if old(self).samples@.len() + 2 <= SAMPLE_CAPACITY {
                old(self).samples@.push(final(self).output_left).push(final(self).output_right)
            } else {
                old(self).samples@
            },
    {
        self.mix();
        self.sample = self.sample.wrapping_add(1);
        if self.samples.len() + 2 <= SAMPLE_CAPACITY {
            self.samples.push(self.output_left);
            self.samples.push(self.output_right);
        }
        self.update = true;
    }

    /// Takes the output values produced so far, left then right for each sample.
    pub fn drain_samples(&mut self) -> (r: Vec<i16>)
        requires
            old(self).wf(),
        ensures
            final(self).wf(),
            r@ == old(self).samples@,
            final(self).samples@.len() == 0,
            final(self).ch1 == old(self).ch1 && final(self).ch2 == old(self).ch2
                && final(self).ch3 == old(self).ch3 && final(self).ch4 == old(self).ch4,
            final(self).enable == old(self).enable,
    {
        let mut out: Vec<i16> = Vec::new();
        std::mem::swap(&mut out, &mut self.samples);
        out
    }

    /// Produces one sample pair from the channel levels.
    fn mix(&mut self)
        requires
            old(self).wf(),
        ensures
            final(self).wf(),
            final(self).output_left == old(self).mix_left(),
            final(self).output_right == old(self).mix_right(),
            final(self).ch1 == old(self).ch1 && final(self).ch2 == old(self).ch2
                && final(self).ch3 == old(self).ch3 && final(self).ch4 == old(self).ch4,
            final(self).samples == old(self).samples && final(self).wave == old(self).wave,
            final(self).clock == old(self).clock && final(self).fs_clock == old(self).fs_clock,
            final(self).frame_sequence == old(self).frame_sequence,
            final(self).enable == old(self).enable,
            final(self).left_volume == old(self).left_volume,
            final(self).right_volume == old(self).right_volume,
            final(self).nr50 == old(self).nr50 && final(self).nr51 == old(self).nr51,
    {
        self.output_left = 0;
        self.output_right = 0;
        self.ch1_sample();
        self.ch2_sample();
        self.ch3_sample();
        self.ch4_sample();
    }

    fn channel_output(enabled: bool, amplitude: u8, routed: bool, volume: u8) -> (r: i32)
        requires
            amplitude < 16,
            volume < 8,
        ensures
            r == contribution(enabled, amplitude, routed, volume),
            -AMP_HALF <= r <= 3000,
    {
        if !enabled {
            return 0;
        }
        let route: i32 = if routed { 1 } else { 0 };
        assert(0 <= AMP_BASE * amplitude * route * volume <= 31 * 15 * 7) by (nonlinear_arith)
            requires
                amplitude < 16,
                volume < 8,
                0 <= route <= 1,
        ;
        AMP_BASE * amplitude as i32 * route * volume as i32 - AMP_HALF
    }

    fn square_level(ch: &Channel) -> (r: u8)
        requires
            ch.envelope.wf(),
        ensures
            r == Apu::square_amplitude(ch),
            r < 16,
    {
        if ch.duty.state { ch.envelope.volume } else { 0 }
    }

    pub fn ch1_sample(&mut self)
        requires
            old(self).wf(),
            -765 <= old(self).output_left <= 9000,
            -765 <= old(self).output_right <= 9000,
        ensures
            old(self).output_left - AMP_HALF <= final(self).output_left <= old(self).output_left + 3000,
            old(self).output_right - AMP_HALF <= final(self).output_right <= old(self).output_right + 3000,
            final(self).output_left == old(self).output_left + contribution(old(self).ch1.enable,
                Apu::square_amplitude(&old(self).ch1), old(self).ch1.left, old(self).left_volume),
            final(self).output_right == old(self).output_right + contribution(old(self).ch1.enable,
                Apu::square_amplitude(&old(self).ch1), old(self).ch1.right, old(self).right_volume),
            final(self).ch1 == old(self).ch1 && final(self).ch2 == old(self).ch2
                && final(self).ch3 == old(self).ch3 && final(self).ch4 == old(self).ch4,
            final(self).samples == old(self).samples && final(self).wave == old(self).wave,
            final(self).clock == old(self).clock && final(self).fs_clock == old(self).fs_clock,
            final(self).frame_sequence == old(self).frame_sequence,
            final(self).enable == old(self).enable,
            final(self).left_volume == old(self).left_volume,
            final(self).right_volume == old(self).right_volume,
            final(self).nr50 == old(self).nr50 && final(self).nr51 == old(self).nr51,
    {
        let level = Apu::square_level(&self.ch1);
        let l = Apu::channel_output(self.ch1.enable, level, self.ch1.left, self.left_volume);
        let r = Apu::channel_output(self.ch1.enable, level, self.ch1.right, self.right_volume);
        self.output_left = (self.output_left as i32 + l) as i16;
        self.output_right = (self.output_right as i32 + r) as i16;
    }

    pub fn ch2_sample(&mut self)
        requires
            old(self).wf(),
            -765 <= old(self).output_left <= 9000,
            -765 <= old(self).output_right <= 9000,
        ensures
            old(self).output_left - AMP_HALF <= final(self).output_left <= old(self).output_left + 3000,
            old(self).output_right - AMP_HALF <= final(self).output_right <= old(self).output_right + 3000,
            final(self).output_left == old(self).output_left + contribution(old(self).ch2.enable,
                Apu::square_amplitude(&old(self).ch2), old(self).ch2.left, old(self).left_volume),
            final(self).output_right == old(self).output_right + contribution(old(self).ch2.enable,
                Apu::square_amplitude(&old(self).ch2), old(self).ch2.right, old(self).right_volume),
            final(self).ch1 == old(self).ch1 && final(self).ch2 == old(self).ch2
                && final(self).ch3 == old(self).ch3 && final(self).ch4 == old(self).ch4,
            final(self).samples == old(self).samples && final(self).wave == old(self).wave,
            final(self).clock == old(self).clock && final(self).fs_clock == old(self).fs_clock,
            final(self).frame_sequence == old(self).frame_sequence,
            final(self).enable == old(self).enable,
            final(self).left_volume == old(self).left_volume,
            final(self).right_volume == old(self).right_volume,
            final(self).nr50 == old(self).nr50 && final(self).nr51 == old(self).nr51,
    {
        let level = Apu::square_level(&self.ch2);
        let l = Apu::channel_output(self.ch2.enable, level, self.ch2.left, self.left_volume);
        let r = Apu::channel_output(self.ch2.enable, level, self.ch2.right, self.right_volume);
        self.output_left = (self.output_left as i32 + l) as i16;
        self.output_right = (self.output_right as i32 + r) as i16;
    }

    pub fn ch3_sample(&mut self)
        requires
            old(self).wf(),
            -765 <= old(self).output_left <= 9000,
            -765 <= old(self).output_right <= 9000,
        ensures
            old(self).output_left - AMP_HALF <= final(self).output_left <= old(self).output_left + 3000,
            old(self).output_right - AMP_HALF <= final(self).output_right <= old(self).output_right + 3000,
            final(self).output_left == old(self).output_left + contribution(old(self).ch3.enable,
                Apu::wave_amplitude(&old(self).ch3), old(self).ch3.left, old(self).left_volume),
            final(self).output_right == old(self).output_right + contribution(old(self).ch3.enable,
                Apu::wave_amplitude(&old(self).ch3), old(self).ch3.right, old(self).right_volume),
            final(self).ch1 == old(self).ch1 && final(self).ch2 == old(self).ch2
                && final(self).ch3 == old(self).ch3 && final(self).ch4 == old(self).ch4,
            final(self).samples == old(self).samples && final(self).wave == old(self).wave,
            final(self).clock == old(self).clock && final(self).fs_clock == old(self).fs_clock,
            final(self).frame_sequence == old(self).frame_sequence,
            final(self).enable == old(self).enable,
            final(self).left_volume == old(self).left_volume,
            final(self).right_volume == old(self).right_volume,
            final(self).nr50 == old(self).nr50 && final(self).nr51 == old(self).nr51,
    {
        let output = self.ch3.wave.output;
        let level: u8 = if self.ch3.wave.shift == 0 {
            0
        } else {
            let s: u8 = self.ch3.wave.shift - 1;
            assert(output >> s <= output) by (bit_vector);
            output >> s
        };
        let l = Apu::channel_output(self.ch3.enable, level, self.ch3.left, self.left_volume);
        let r = Apu::channel_output(self.ch3.enable, level, self.ch3.right, self.right_volume);
        self.output_left = (self.output_left as i32 + l) as i16;
        self.output_right = (self.output_right as i32 + r) as i16;
    }

    pub fn ch4_sample(&mut self)
        requires
            old(self).wf(),
            -765 <= old(self).output_left <= 9000,
            -765 <= old(self).output_right <= 9000,
        ensures
            old(self).output_left - AMP_HALF <= final(self).output_left <= old(self).output_left + 3000,
            old(self).output_right - AMP_HALF <= final(self).output_right <= old(self).output_right + 3000,
            final(self).output_left == old(self).output_left + contribution(old(self).ch4.enable,
                Apu::noise_amplitude(&old(self).ch4), old(self).ch4.left, old(self).left_volume),
            final(self).output_right == old(self).output_right + contribution(old(self).ch4.enable,
                Apu::noise_amplitude(&old(self).ch4), old(self).ch4.right, old(self).right_volume),
            final(self).ch1 == old(self).ch1 && final(self).ch2 == old(self).ch2
                && final(self).ch3 == old(self).ch3 && final(self).ch4 == old(self).ch4,
            final(self).samples == old(self).samples && final(self).wave == old(self).wave,
            final(self).clock == old(self).clock && final(self).fs_clock == old(self).fs_clock,
            final(self).frame_sequence == old(self).frame_sequence,
            final(self).enable == old(self).enable,
            final(self).left_volume == old(self).left_volume,
            final(self).right_volume == old(self).right_volume,
            final(self).nr50 == old(self).nr50 && final(self).nr51 == old(self).nr51,
    {
        let level: u8 = if self.ch4.noise.state { self.ch4.envelope.volume } else { 0 };
        let l = Apu::channel_output(self.ch4.enable, level, self.ch4.left, self.left_volume);
        let r = Apu::channel_output(self.ch4.enable, level, self.ch4.right, self.right_volume);
        self.output_left = (self.output_left as i32 + l) as i16;
        self.output_right = (self.output_right as i32 + r) as i16;
    }
}

} // verus!
