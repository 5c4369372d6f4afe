use vstd::prelude::*;
use super::timer::Timer;

verus! {

/// The linear feedback shift register after one step: bits 0 and 1 are xored into
/// bit 14 of the shifted value, and into bit 6 too in the seven-bit mode.
pub open spec fn lfsr_step(lfsr: u16, width_mode: bool) -> u16 {
    let x = (lfsr & 1) ^ ((lfsr >> 1) & 1);
    let shifted = ((lfsr >> 1) & 0xbfff) | (x << 14);
    if width_mode {
        (shifted & 0xffbf) | (x << 6)
    } else {
        shifted
    }
}

/// The noise generator of channel 4.
pub struct Noise {
    pub timer: Timer,
    /// NR43 bits 4-7
    pub shift: u8,
    /// NR43 bit 3: seven-bit mode
    pub width_mode: bool,
    pub lfsr: u16,
    pub state: bool,
}

/// One clock of the noise generator from `before` to `after`.
pub open spec fn noise_stepped(after: &Noise, before: &Noise) -> bool {
    &&& (after.shift == before.shift)
    &&& (after.width_mode == before.width_mode)
    &&& (after.timer.period == before.timer.period)
    &&& (before.timer.counter == 0 ==> after.lfsr == lfsr_step(
            before.lfsr,
            before.width_mode,
        ) && after.state == (after.lfsr & 1 == 0))
    &&& (before.timer.counter != 0 ==> after.lfsr == before.lfsr && after.state
            == before.state)
}

impl Noise {
    pub fn new() -> (r: Noise)
        ensures
            r.shift == 0 && !r.width_mode && r.lfsr == 0 && !r.state,
            r.timer.counter == 0 && r.timer.period == 0,
    {
        Noise { timer: Timer::new(), shift: 0, width_mode: false, lfsr: 0, state: false }
    }

    /// Advances one clock; when the timer runs out the register steps and the output
    /// is the inverse of its bit 0.
    pub fn tick(&mut self)
        ensures
            noise_stepped(final(self), old(self)),
    {
        if self.timer.tick() {
            let lfsr = self.lfsr;
            let x = (lfsr & 1) ^ ((lfsr >> 1) & 1);
            let shifted = ((lfsr >> 1) & 0xbfff) | (x << 14);
            self.lfsr = if self.width_mode {
                (shifted & 0xffbf) | (x << 6)
            } else {
                shifted
            };
            self.state = self.lfsr & 1 == 0;
        }
    }
}

} // verus!
