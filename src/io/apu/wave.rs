use vstd::prelude::*;
use super::timer::Timer;

verus! {

/// Size of wave RAM in bytes: 32 samples of four bits.
pub const WAVE_SIZE: usize = 0x10;

/// Sample `position` of wave RAM: the high nibble of a byte comes first.
pub open spec fn wave_nibble(wave: Seq<u8>, position: u16) -> u8 {
    let byte = wave[((position & 0x1f) / 2) as int];
    if position % 2 == 1 {
        byte & 0xf
    } else {
        byte >> 4
    }
}

/// The wave generator of channel 3.
pub struct Wave {
    pub timer: Timer,
    /// eleven-bit frequency of NR33 and NR34
    pub frequency: u16,
    /// NR32 volume code: 0 mute, 1 full, 2 half, 3 quarter
    pub shift: u8,
    pub position: u16,
    pub output: u8,
}

/// One clock of the wave generator from `before` to `after`, reading `wave_ram`.
pub open spec fn wave_stepped(after: &Wave, before: &Wave, wave_ram: Seq<u8>) -> bool {
    &&& (after.frequency == before.frequency)
    &&& (after.shift == before.shift)
    &&& (after.timer.period == (2048 - before.frequency) * 2)
    &&& (before.timer.counter == 0 ==> after.position == (before.position + 1) % 32
            && after.output == wave_nibble(wave_ram, after.position))
    &&& (before.timer.counter != 0 ==> after.position == before.position
            && after.output == before.output)
}

impl Wave {
    pub fn new() -> (r: Wave)
        ensures
            r.wf(),
            r.frequency == 0 && r.shift == 0 && r.position == 0 && r.output == 0,
            r.timer.counter == 0 && r.timer.period == 0,
    {
        Wave { timer: Timer::new(), frequency: 0, shift: 0, position: 0, output: 0 }
    }

    pub open spec fn wf(&self) -> bool {
        self.frequency < 2048 && self.position < 32 && self.output < 16 && self.shift < 4
    }

    /// Advances one clock: the timer runs at (2048 - frequency) * 2 clocks per step,
    /// and each step reads the next sample of wave RAM.
    pub fn tick(&mut self, wave_memory: &Vec<u8>)
        requires
            old(self).wf(),
            wave_memory@.len() == WAVE_SIZE,
        ensures
            final(self).wf(),
            wave_stepped(final(self), old(self), wave_memory@),
    {
        self.timer.period = (2048 - self.frequency as u32) * 2;
        if self.timer.tick() {
            self.position = (self.position + 1) % 32;
            let p = self.position;
            assert((p & 0x1f) / 2 < 16 && (p & 0x1f) == p) by (bit_vector)
                requires
                    p < 32,
            ;
            let byte = wave_memory[((self.position & 0x1f) / 2) as usize];
            self.output = if self.position % 2 == 1 {
                byte & 0xf
            } else {
                byte >> 4
            };
            assert(byte & 0xf < 16 && byte >> 4 < 16) by (bit_vector);
        }
    }
}

} // verus!
