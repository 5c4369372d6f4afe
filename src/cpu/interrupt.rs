use vstd::prelude::*;

verus! {

/// Vector of the vertical blank interrupt.
pub const VBLANK: u16 = 0x40;
/// Vector of the LCD status interrupt.
pub const LCDC: u16 = 0x48;
/// Vector of the timer interrupt.
pub const TIMER: u16 = 0x50;
/// Vector of the serial interrupt.
pub const SERIAL: u16 = 0x58;
/// Vector of the joypad interrupt.
pub const JOYPAD: u16 = 0x60;

/// One bit per interrupt line, as held by the IE and IF registers.
#[derive(Clone, Copy, Default, Debug, PartialEq, Eq, Structural)]
pub struct Interrupt {
    pub vblank: bool,
    pub lcdc: bool,
    pub timer: bool,
    pub serial: bool,
    pub joypad: bool,
}

pub open spec fn bit(value: u8, mask: u8) -> bool {
    value & mask != 0
}

pub open spec fn flag_bit(b: bool, mask: u8) -> u8 {
    if b { mask } else { 0 }
}

impl Interrupt {
    /// The lines named by the low five bits of a register byte.
    pub open spec fn spec_from_u8(value: u8) -> Interrupt {
        Interrupt {
            vblank: bit(value, 0x01),
            lcdc: bit(value, 0x02),
            timer: bit(value, 0x04),
            serial: bit(value, 0x08),
            joypad: bit(value, 0x10),
        }
    }

    /// The register byte for a set of lines: bit 0 VBlank up to bit 4 Joypad.
    pub open spec fn spec_to_u8(self) -> u8 {
        flag_bit(self.vblank, 0x01) | flag_bit(self.lcdc, 0x02) | flag_bit(self.timer, 0x04)
            | flag_bit(self.serial, 0x08) | flag_bit(self.joypad, 0x10)
    }

    pub fn from_u8(value: u8) -> (r: Interrupt)
        ensures
            r == Interrupt::spec_from_u8(value),
    {
        Interrupt {
            vblank: value & 0x01 != 0,
            lcdc: value & 0x02 != 0,
            timer: value & 0x04 != 0,
            serial: value & 0x08 != 0,
            joypad: value & 0x10 != 0,
        }
    }

    pub fn to_u8(self) -> (r: u8)
        ensures
            r == self.spec_to_u8(),
    {
        let vblank: u8 = if self.vblank { 0x01 } else { 0 };
        let lcdc: u8 = if self.lcdc { 0x02 } else { 0 };
        let timer: u8 = if self.timer { 0x04 } else { 0 };
        let serial: u8 = if self.serial { 0x08 } else { 0 };
        let joypad: u8 = if self.joypad { 0x10 } else { 0 };
        vblank | lcdc | timer | serial | joypad
    }
}

/// Reading a set of lines back from its register byte gives the same set.
pub proof fn lemma_interrupt_round_trip(i: Interrupt)
    ensures
        Interrupt::spec_from_u8(i.spec_to_u8()) == i,
{
    let (a, b, c, d, e) = (i.vblank, i.lcdc, i.timer, i.serial, i.joypad);
    let x = i.spec_to_u8();
    assert(x == flag_bit(a, 0x01) | flag_bit(b, 0x02) | flag_bit(c, 0x04) | flag_bit(d, 0x08) | flag_bit(e, 0x10));
    assert(bit(x, 0x01) == a && bit(x, 0x02) == b && bit(x, 0x04) == c && bit(x, 0x08) == d && bit(x, 0x10) == e) by (bit_vector)
        requires
            x == (if a { 0x01u8 } else { 0u8 }) | (if b { 0x02u8 } else { 0u8 }) | (if c { 0x04u8 } else { 0u8 })
                | (if d { 0x08u8 } else { 0u8 }) | (if e { 0x10u8 } else { 0u8 }),
    ;
}

/// A register byte read as a set of lines and written back keeps its low five bits.
pub proof fn lemma_interrupt_byte_round_trip(value: u8)
    ensures
        Interrupt::spec_from_u8(value).spec_to_u8() == value & 0x1f,
{
    let i = Interrupt::spec_from_u8(value);
    assert(((if value & 0x01 != 0 { 0x01u8 } else { 0u8 }) | (if value & 0x02 != 0 { 0x02u8 } else { 0u8 })
        | (if value & 0x04 != 0 { 0x04u8 } else { 0u8 }) | (if value & 0x08 != 0 { 0x08u8 } else { 0u8 })
        | (if value & 0x10 != 0 { 0x10u8 } else { 0u8 })) == value & 0x1f) by (bit_vector);
}

} // verus!
