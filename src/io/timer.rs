use vstd::prelude::*;

verus! {

/// Rate of TIMA, as a power of two of the clock.
#[derive(Clone, Copy, Debug, PartialEq, Eq, Structural)]
pub enum Divider {
    Div16,
    Div64,
    Div256,
    Div1024,
}

/// DIV and the programmable TIMA counter.
pub struct Timer {
    /// TIMA
    pub counter: u8,
    /// TMA, reloaded into TIMA on overflow
    pub modulo: u8,
    /// TAC bit 2
    pub enable: bool,
    /// TAC bits 0-1
    pub divider: Divider,
    /// internal counter whose high byte is DIV; one step per clock
    pub counter_16k: u16,
    /// pending timer interrupt
    pub interrupt: bool,
}

/// The internal counter one step on, wrapping at 16 bits.
pub open spec fn inc16(x: u16) -> u16 {
    if x == 0xffff { 0 } else { (x + 1) as u16 }
}

/// Mask of the low bits of the internal counter that must be zero for TIMA to step.
pub open spec fn divider_mask(d: Divider) -> u16 {
    match d {
        Divider::Div16 => 0xf,
        Divider::Div64 => 0x3f,
        Divider::Div256 => 0xff,
        Divider::Div1024 => 0x3ff,
    }
}

/// The divider that TAC bits 0-1 select.
pub open spec fn divider_of(ctrl: u8) -> Divider {
    if ctrl & 3 == 0 {
        Divider::Div1024
    } else if ctrl & 3 == 1 {
        Divider::Div16
    } else if ctrl & 3 == 2 {
        Divider::Div64
    } else {
        Divider::Div256
    }
}

/// The TAC bits 0-1 code of a divider.
pub open spec fn divider_code(d: Divider) -> u8 {
    match d {
        Divider::Div1024 => 0,
        Divider::Div16 => 1,
        Divider::Div64 => 2,
        Divider::Div256 => 3,
    }
}

impl Timer {
    pub open spec fn spec_div(&self) -> u8 {
        (self.counter_16k >> 8) as u8
    }

    /// Whether the step after this one moves TIMA.
    pub open spec fn edge_next(&self) -> bool {
        self.enable && inc16(self.counter_16k) & divider_mask(self.divider) == 0
    }

    /// The timer one clock on.
    pub open spec fn spec_tick(&self) -> Timer {
        let edge = self.edge_next();
        Timer {
            counter_16k: inc16(self.counter_16k),
            counter: if edge {
                if self.counter == 0xff { self.modulo } else { (self.counter + 1) as u8 }
            } else {
                self.counter
            },
            interrupt: self.interrupt || (edge && self.counter == 0xff),
            ..*self
        }
    }

    pub fn new() -> (r: Timer)
        ensures
            r.counter == 0,
            r.modulo == 0,
            !r.enable,
            r.divider == Divider::Div1024,
            r.counter_16k == 0,
            !r.interrupt,
    {
        Timer {
            counter: 0,
            modulo: 0,
            enable: false,
            divider: Divider::Div1024,
            counter_16k: 0,
            interrupt: false,
        }
    }

    fn mask(&self) -> (r: u16)
        ensures
            r == divider_mask(self.divider),
    {
        match self.divider {
            Divider::Div16 => 0xf,
            Divider::Div64 => 0x3f,
            Divider::Div256 => 0xff,
            Divider::Div1024 => 0x3ff,
        }
    }

    /// Advances one clock: the internal counter steps, and on a selected edge TIMA
    /// steps too; on overflow TIMA is reloaded from TMA and the interrupt is raised.
    pub fn tick(&mut self)
        ensures
            *final(self) == old(self).spec_tick(),
            final(self).counter_16k == inc16(old(self).counter_16k),
            final(self).modulo == old(self).modulo,
            final(self).enable == old(self).enable,
            final(self).divider == old(self).divider,
            old(self).edge_next() && old(self).counter == 0xff ==> final(self).counter
                == old(self).modulo && final(self).interrupt,
            old(self).edge_next() && old(self).counter != 0xff ==> final(self).counter
                == old(self).counter + 1 && final(self).interrupt == old(self).interrupt,
            !old(self).edge_next() ==> final(self).counter == old(self).counter
                && final(self).interrupt == old(self).interrupt,
    {
        self.counter_16k = if self.counter_16k == 0xffff { 0 } else { self.counter_16k + 1 };

        if !self.enable {
            return;
        }

        let mask = self.mask();

        if self.counter_16k & mask == 0 {
            if self.counter == 0xff {
                // TIMA overflows: reload it from TMA and raise the interrupt
                self.interrupt = true;
                self.counter = self.modulo;
            } else {
                self.counter = self.counter + 1;
            }
        }
    }

    pub fn get_div(&self) -> (r: u8)
        ensures
            r == self.spec_div(),
    {
        (self.counter_16k >> 8) as u8
    }

    /// Any write to DIV clears the internal counter.
    pub fn reset_div(&mut self)
        ensures
            final(self).counter_16k == 0,
            final(self).spec_div() == 0,
            final(self).counter == old(self).counter,
            final(self).modulo == old(self).modulo,
            final(self).enable == old(self).enable,
            final(self).divider == old(self).divider,
            final(self).interrupt == old(self).interrupt,
    {
        self.counter_16k = 0;
        assert((0u16 >> 8u16) as u8 == 0) by (bit_vector);
    }

    pub fn set_control(&mut self, ctrl: u8)
        ensures
            final(self).enable == (ctrl & 4 != 0),
            final(self).divider == divider_of(ctrl),
            final(self).counter == old(self).counter,
            final(self).modulo == old(self).modulo,
            final(self).counter_16k == old(self).counter_16k,
            final(self).interrupt == old(self).interrupt,
    {
        self.enable = ctrl & 4 != 0;
        let code = ctrl & 3;
        self.divider = if code == 0 {
            Divider::Div1024
        } else if code == 1 {
            Divider::Div16
        } else if code == 2 {
            Divider::Div64
        } else {
            Divider::Div256
        };
    }

    pub fn get_control(&self) -> (r: u8)
        ensures
            r == (if self.enable { 4u8 } else { 0u8 }) | divider_code(self.divider),
    {
        let enable: u8 = if self.enable { 4 } else { 0 };
        let code: u8 = match self.divider {
            Divider::Div1024 => 0,
            Divider::Div16 => 1,
            Divider::Div64 => 2,
            Divider::Div256 => 3,
        };
        enable | code
    }
}

/// DIV reads 0 while the internal counter is below 256: for 255 clocks after a reset.
pub proof fn lemma_div_after_reset(t: Timer)
    requires
        t.counter_16k < 256,
    ensures
        t.spec_div() == 0,
{
    let c = t.counter_16k;
    assert((c >> 8) as u8 == 0) by (bit_vector)
        requires
            c < 256,
    ;
}

/// TAC written and read back keeps its low three bits.
pub proof fn lemma_control_round_trip(ctrl: u8)
    ensures
        (if ctrl & 4 != 0 { 4u8 } else { 0u8 }) | divider_code(divider_of(ctrl)) == ctrl & 7,
{
    let c = ctrl & 3;
    assert(c < 4 && (ctrl & 7) == ((ctrl & 4) | c) && (ctrl & 4 == 0 || ctrl & 4 == 4)) by (bit_vector)
        requires
            c == ctrl & 3,
    ;
    assert(c == 0 || c == 1 || c == 2 || c == 3);
    assert(((if ctrl & 4 != 0 { 4u8 } else { 0u8 }) | c) == ctrl & 7) by (bit_vector)
        requires
            c == ctrl & 3,
    ;
}

} // verus!
